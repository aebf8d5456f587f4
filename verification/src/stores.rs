use vstd::prelude::*;

verus! {

/// A store of the company.
#[allow(non_snake_case)]
#[derive(Debug)]
pub struct Store {
    pub STORE_ID: Option<String>,
    pub STORE_DESC: Option<String>,
    pub STORE_DESC_S: Option<String>,
}

/// The body of a request that sets the stores a user may see: all stores
/// when `p_allstoresaccess` is 1, otherwise the listed ones.
#[derive(Debug)]
pub struct StoreListUpdateParams {
    pub p_username: String,
    pub p_stores: Option<Vec<i8>>,
    pub p_allstoresaccess: i8,
}

/// One change to the stores that a user may see.
#[derive(Debug, Clone, Copy, PartialEq, Eq, Structural)]
pub enum StoreAction {
    /// Remove every store grant of the user.
    ClearAccess,
    /// Grant the user every store.
    GrantAllStores,
    /// Grant the user one store.
    GrantStore(i8),
}

/// The grants of the listed stores, in the order of the list.
pub open spec fn grants_of(stores: Seq<i8>) -> Seq<StoreAction> {
    stores.map_values(|s: i8| StoreAction::GrantStore(s))
}

/// The changes that a store update makes, in order: the old grants are
/// cleared when a list is given or all-store access is off; then either all
/// stores are granted or each listed store is.
pub open spec fn store_update_plan(p: StoreListUpdateParams) -> Seq<StoreAction> {
    let clear = if p.p_stores is Some || p.p_allstoresaccess == 0 {
        seq![StoreAction::ClearAccess]
    } else {
        Seq::empty()
    };
    if p.p_allstoresaccess == 1 {
        clear.push(StoreAction::GrantAllStores)
    } else {
        clear + grants_of(p.p_stores->Some_0@)
    }
}

/// The changes that the store update `p` makes; unless all-store access is
/// asked for, a list of stores must be given.
pub fn plan_store_update(p: &StoreListUpdateParams) -> (r: Vec<StoreAction>)
    requires
        p.p_allstoresaccess == 1 || p.p_stores is Some,
    ensures
        r@ == store_update_plan(*p),
{
    let mut r: Vec<StoreAction> = Vec::new();
    if p.p_stores.is_some() || p.p_allstoresaccess == 0 {
        r.push(StoreAction::ClearAccess);
    }
    let ghost clear = r@;
    if p.p_allstoresaccess == 1 {
        r.push(StoreAction::GrantAllStores);
    } else {
        match &p.p_stores {
            Some(list) => {
                let mut i: usize = 0;
                while i < list.len()
                    invariant
                        i <= list.len(),
                        r@ == clear + grants_of(list@.subrange(0, i as int)),
                    decreases list.len() - i,
                {
                    r.push(StoreAction::GrantStore(list[i]));
                    assert(grants_of(list@.subrange(0, i + 1)) =~= grants_of(list@.subrange(0, i as int)).push(
                        StoreAction::GrantStore(list@[i as int]),
                    ));
                    assert(r@ =~= clear + grants_of(list@.subrange(0, i + 1)));
                    i = i + 1;
                }
                assert(list@.subrange(0, list.len() as int) =~= list@);
            },
            None => {},
        }
    }
    assert(r@ =~= store_update_plan(*p));
    r
}

/// After a store update that lists stores, the user holds exactly the listed
/// stores: the old grants are cleared first, and then each listed store, and
/// nothing else, is granted.
pub proof fn lemma_listed_update_replaces_grants(p: StoreListUpdateParams)
    requires
        p.p_stores is Some,
        p.p_allstoresaccess != 1,
    ensures
        store_update_plan(p)[0] == StoreAction::ClearAccess,
        store_update_plan(p).len() == p.p_stores->Some_0@.len() + 1,
        forall|i: int| 1 <= i < store_update_plan(p).len() ==> store_update_plan(p)[i]
            == StoreAction::GrantStore(p.p_stores->Some_0@[i - 1]),
{
}

/// A store update that asks for all-store access ends with a grant of every store.
pub proof fn lemma_all_access_update_grants_all(p: StoreListUpdateParams)
    requires
        p.p_allstoresaccess == 1,
    ensures
        store_update_plan(p).last() == StoreAction::GrantAllStores,
        store_update_plan(p).len() <= 2,
{
}

} // verus!
