use vstd::prelude::*;

use crate::errors::APIError;
use crate::text::str_eq;

verus! {

/// The rights that a user can hold.
#[derive(Debug, Clone, Copy, PartialEq, Eq, Structural)]
pub enum PermissionKind {
    Users,
    Permissions,
    Query,
    Images,
    Cost,
    Admin,
    Stock,
    Reports,
    Stores,
}

/// The rights of a user, one flag for each kind.
#[derive(Debug, Clone, Copy, PartialEq, Eq, Structural)]
pub struct Permissions {
    pub users: bool,
    pub permissions: bool,
    pub query: bool,
    pub images: bool,
    pub cost: bool,
    pub admin: bool,
    pub stock: bool,
    pub reports: bool,
    pub stores: bool,
}

/// The body of a request that replaces a user's rights.
#[derive(Debug, Clone, Copy)]
pub struct PermissionEditParams {
    pub p_permissions: Permissions,
}

/// The name under which a right is stored.
pub open spec fn kind_name(k: PermissionKind) -> Seq<char> {
    match k {
        PermissionKind::Users => "users"@,
        PermissionKind::Permissions => "permissions"@,
        PermissionKind::Query => "query"@,
        PermissionKind::Images => "images"@,
        PermissionKind::Cost => "cost"@,
        PermissionKind::Admin => "admin"@,
        PermissionKind::Stock => "stock"@,
        PermissionKind::Reports => "reports"@,
        PermissionKind::Stores => "stores"@,
    }
}

/// The right that a stored name stands for, if any.
pub open spec fn kind_of_name(s: Seq<char>) -> Option<PermissionKind> {
    if s == "users"@ {
        Some(PermissionKind::Users)
    } else if s == "permissions"@ {
        Some(PermissionKind::Permissions)
    } else if s == "query"@ {
        Some(PermissionKind::Query)
    } else if s == "images"@ {
        Some(PermissionKind::Images)
    } else if s == "cost"@ {
        Some(PermissionKind::Cost)
    } else if s == "admin"@ {
        Some(PermissionKind::Admin)
    } else if s == "stock"@ {
        Some(PermissionKind::Stock)
    } else if s == "reports"@ {
        Some(PermissionKind::Reports)
    } else if s == "stores"@ {
        Some(PermissionKind::Stores)
    } else {
        None
    }
}

impl Permissions {
    /// Whether these rights include the right `k`.
    pub open spec fn spec_grants(self, k: PermissionKind) -> bool {
        match k {
            PermissionKind::Users => self.users,
            PermissionKind::Permissions => self.permissions,
            PermissionKind::Query => self.query,
            PermissionKind::Images => self.images,
            PermissionKind::Cost => self.cost,
            PermissionKind::Admin => self.admin,
            PermissionKind::Stock => self.stock,
            PermissionKind::Reports => self.reports,
            PermissionKind::Stores => self.stores,
        }
    }

    /// No rights at all.
    pub fn new() -> (r: Permissions)
        ensures
            forall|k: PermissionKind| !r.spec_grants(k),
    {
        Permissions {
            users: false,
            permissions: false,
            query: false,
            images: false,
            cost: false,
            admin: false,
            stock: false,
            reports: false,
            stores: false,
        }
    }

    /// Whether these rights include the right `k`.
    pub fn grants(&self, k: PermissionKind) -> (r: bool)
        ensures
            r == self.spec_grants(k),
    {
        match k {
            PermissionKind::Users => self.users,
            PermissionKind::Permissions => self.permissions,
            PermissionKind::Query => self.query,
            PermissionKind::Images => self.images,
            PermissionKind::Cost => self.cost,
            PermissionKind::Admin => self.admin,
            PermissionKind::Stock => self.stock,
            PermissionKind::Reports => self.reports,
            PermissionKind::Stores => self.stores,
        }
    }

    /// Adds the right `k`, leaving the others as they were.
    pub fn grant(&mut self, k: PermissionKind)
        ensures
            forall|j: PermissionKind| #[trigger] final(self).spec_grants(j) == (j == k || old(self).spec_grants(j)),
    {
        match k {
            PermissionKind::Users => self.users = true,
            PermissionKind::Permissions => self.permissions = true,
            PermissionKind::Query => self.query = true,
            PermissionKind::Images => self.images = true,
            PermissionKind::Cost => self.cost = true,
            PermissionKind::Admin => self.admin = true,
            PermissionKind::Stock => self.stock = true,
            PermissionKind::Reports => self.reports = true,
            PermissionKind::Stores => self.stores = true,
        }
    }
}

impl PermissionKind {
    /// The name under which the right is stored.
    pub fn name(&self) -> (r: String)
        ensures
            r@ == kind_name(*self),
    {
        match self {
            PermissionKind::Users => String::from_str("users"),
            PermissionKind::Permissions => String::from_str("permissions"),
            PermissionKind::Query => String::from_str("query"),
            PermissionKind::Images => String::from_str("images"),
            PermissionKind::Cost => String::from_str("cost"),
            PermissionKind::Admin => String::from_str("admin"),
            PermissionKind::Stock => String::from_str("stock"),
            PermissionKind::Reports => String::from_str("reports"),
            PermissionKind::Stores => String::from_str("stores"),
        }
    }

    /// The right that a stored name stands for; `None` for any other name.
    pub fn from_name(name: &str) -> (r: Option<PermissionKind>)
        ensures
            r == kind_of_name(name@),
    {
        if str_eq(name, "users") {
            Some(PermissionKind::Users)
        } else if str_eq(name, "permissions") {
            Some(PermissionKind::Permissions)
        } else if str_eq(name, "query") {
            Some(PermissionKind::Query)
        } else if str_eq(name, "images") {
            Some(PermissionKind::Images)
        } else if str_eq(name, "cost") {
            Some(PermissionKind::Cost)
        } else if str_eq(name, "admin") {
            Some(PermissionKind::Admin)
        } else if str_eq(name, "stock") {
            Some(PermissionKind::Stock)
        } else if str_eq(name, "reports") {
            Some(PermissionKind::Reports)
        } else if str_eq(name, "stores") {
            Some(PermissionKind::Stores)
        } else {
            None
        }
    }
}

/// Each right has a name of its own, and that name is read back as that right.
pub proof fn lemma_kind_names(k: PermissionKind)
    ensures
        kind_of_name(kind_name(k)) == Some(k),
{
    reveal_strlit("users");
    reveal_strlit("permissions");
    reveal_strlit("query");
    reveal_strlit("images");
    reveal_strlit("cost");
    reveal_strlit("admin");
    reveal_strlit("stock");
    reveal_strlit("reports");
    reveal_strlit("stores");
    let n = kind_name(k);
    assert(n.len() == 5 && n[0] == 'u' ==> n == "users"@);
    if n != "users"@ && "users"@.len() == n.len() {
        assert("users"@[0] != n[0] || k == PermissionKind::Users);
    }
    if n != "query"@ && "query"@.len() == n.len() {
        assert("query"@[0] != n[0] || k == PermissionKind::Query);
    }
    if n != "admin"@ && "admin"@.len() == n.len() {
        assert("admin"@[0] != n[0] || k == PermissionKind::Admin);
    }
    if n != "stock"@ && "stock"@.len() == n.len() {
        assert("stock"@[0] != n[0] || k == PermissionKind::Stock);
    }
    if n != "images"@ && "images"@.len() == n.len() {
        assert("images"@[0] != n[0] || k == PermissionKind::Images);
    }
    if n != "stores"@ && "stores"@.len() == n.len() {
        assert("stores"@[0] != n[0] || k == PermissionKind::Stores);
    }
}

/// Whether one of the stored names is the name of the right `k`.
pub open spec fn names_include(names: Seq<Seq<char>>, k: PermissionKind) -> bool {
    exists|i: int| 0 <= i < names.len() && names[i] == kind_name(k)
}

/// The rights that the stored names stand for: a right is held when its name
/// is among them; names of no right are ignored, as are repeats.
pub fn permissions_from_names(names: &Vec<String>) -> (r: Permissions)
    ensures
        forall|k: PermissionKind|
            #[trigger] r.spec_grants(k) == names_include(names@.map_values(|s: String| s@), k),
{
    let ghost views = names@.map_values(|s: String| s@);
    let mut r = Permissions::new();
    let mut i: usize = 0;
    while i < names.len()
        invariant
            i <= names.len(),
            views == names@.map_values(|s: String| s@),
            forall|k: PermissionKind|
                #[trigger] r.spec_grants(k) == names_include(views.subrange(0, i as int), k),
        decreases names.len() - i,
    {
        let found = PermissionKind::from_name(names[i].as_str());
        let ghost before = r;
        match found {
            Some(k) => r.grant(k),
            None => {},
        }
        proof {
            let pre = views.subrange(0, i as int);
            let post = views.subrange(0, i + 1);
            assert(views[i as int] == names@[i as int]@);
            assert forall|k: PermissionKind| #[trigger] r.spec_grants(k) == names_include(post, k) by {
                lemma_kind_names(k);
                if names_include(post, k) {
                    let j = choose|j: int| 0 <= j < post.len() && post[j] == kind_name(k);
                    if j < i {
                        assert(pre[j] == post[j]);
                    } else {
                        assert(post[j] == views[i as int]);
                    }
                }
                if names_include(pre, k) {
                    let j = choose|j: int| 0 <= j < pre.len() && pre[j] == kind_name(k);
                    assert(post[j] == pre[j]);
                }
                if views[i as int] == kind_name(k) {
                    assert(post[i as int] == views[i as int]);
                }
            }
        }
        i = i + 1;
    }
    assert(views.subrange(0, names.len() as int) =~= views);
    r
}

/// `[name]` when the right is held, `[]` when it is not.
pub open spec fn name_if(held: bool, k: PermissionKind) -> Seq<Seq<char>> {
    if held {
        seq![kind_name(k)]
    } else {
        Seq::empty()
    }
}

/// The names of the held rights, in the order in which they are stored.
pub open spec fn granted_names_spec(p: Permissions) -> Seq<Seq<char>> {
    name_if(p.users, PermissionKind::Users) + name_if(p.permissions, PermissionKind::Permissions)
        + name_if(p.query, PermissionKind::Query) + name_if(p.images, PermissionKind::Images)
        + name_if(p.cost, PermissionKind::Cost) + name_if(p.admin, PermissionKind::Admin)
        + name_if(p.stock, PermissionKind::Stock) + name_if(p.reports, PermissionKind::Reports)
        + name_if(p.stores, PermissionKind::Stores)
}

fn push_name_if(names: &mut Vec<String>, held: bool, k: PermissionKind)
    ensures
        final(names)@.map_values(|s: String| s@) == old(names)@.map_values(|s: String| s@) + name_if(held, k),
{
    let ghost before = names@.map_values(|s: String| s@);
    if held {
        names.push(k.name());
        assert(names@.map_values(|s: String| s@) =~= before + name_if(held, k));
    } else {
        assert(names@.map_values(|s: String| s@) =~= before + name_if(held, k));
    }
}

impl Permissions {
    /// The names of the held rights, one row each, in the order users,
    /// permissions, query, images, cost, admin, stock, reports, stores.
    pub fn granted_names(&self) -> (r: Vec<String>)
        ensures
            r@.map_values(|s: String| s@) == granted_names_spec(*self),
    {
        let mut names: Vec<String> = Vec::new();
        assert(names@.map_values(|s: String| s@) =~= Seq::<Seq<char>>::empty());
        push_name_if(&mut names, self.users, PermissionKind::Users);
        push_name_if(&mut names, self.permissions, PermissionKind::Permissions);
        push_name_if(&mut names, self.query, PermissionKind::Query);
        push_name_if(&mut names, self.images, PermissionKind::Images);
        push_name_if(&mut names, self.cost, PermissionKind::Cost);
        push_name_if(&mut names, self.admin, PermissionKind::Admin);
        push_name_if(&mut names, self.stock, PermissionKind::Stock);
        push_name_if(&mut names, self.reports, PermissionKind::Reports);
        push_name_if(&mut names, self.stores, PermissionKind::Stores);
        assert(names@.map_values(|s: String| s@) =~= granted_names_spec(*self));
        names
    }
}

proof fn lemma_names_include_concat(a: Seq<Seq<char>>, b: Seq<Seq<char>>, k: PermissionKind)
    ensures
        names_include(a + b, k) == (names_include(a, k) || names_include(b, k)),
{
    let c = a + b;
    if names_include(c, k) {
        let i = choose|i: int| 0 <= i < c.len() && c[i] == kind_name(k);
        if i < a.len() {
            assert(a[i] == c[i]);
        } else {
            assert(b[i - a.len()] == c[i]);
        }
    }
    if names_include(a, k) {
        let i = choose|i: int| 0 <= i < a.len() && a[i] == kind_name(k);
        assert(c[i] == a[i]);
    }
    if names_include(b, k) {
        let i = choose|i: int| 0 <= i < b.len() && b[i] == kind_name(k);
        assert(c[i + a.len()] == b[i]);
    }
}

proof fn lemma_names_include_single(held: bool, j: PermissionKind, k: PermissionKind)
    ensures
        names_include(name_if(held, j), k) == (held && j == k),
{
    lemma_kind_names(j);
    lemma_kind_names(k);
    if held {
        assert(name_if(held, j)[0] == kind_name(j));
    }
}

/// Storing a user's rights as their names and reading them back gives the
/// same rights: the right `k` is among the stored names exactly when it is held.
pub proof fn lemma_permissions_roundtrip(p: Permissions, k: PermissionKind)
    ensures
        names_include(granted_names_spec(p), k) == p.spec_grants(k),
{
    let a1 = name_if(p.users, PermissionKind::Users);
    let a2 = name_if(p.permissions, PermissionKind::Permissions);
    let a3 = name_if(p.query, PermissionKind::Query);
    let a4 = name_if(p.images, PermissionKind::Images);
    let a5 = name_if(p.cost, PermissionKind::Cost);
    let a6 = name_if(p.admin, PermissionKind::Admin);
    let a7 = name_if(p.stock, PermissionKind::Stock);
    let a8 = name_if(p.reports, PermissionKind::Reports);
    let a9 = name_if(p.stores, PermissionKind::Stores);
    lemma_names_include_single(p.users, PermissionKind::Users, k);
    lemma_names_include_single(p.permissions, PermissionKind::Permissions, k);
    lemma_names_include_single(p.query, PermissionKind::Query, k);
    lemma_names_include_single(p.images, PermissionKind::Images, k);
    lemma_names_include_single(p.cost, PermissionKind::Cost, k);
    lemma_names_include_single(p.admin, PermissionKind::Admin, k);
    lemma_names_include_single(p.stock, PermissionKind::Stock, k);
    lemma_names_include_single(p.reports, PermissionKind::Reports, k);
    lemma_names_include_single(p.stores, PermissionKind::Stores, k);
    lemma_names_include_concat(a1, a2, k);
    lemma_names_include_concat(a1 + a2, a3, k);
    lemma_names_include_concat(a1 + a2 + a3, a4, k);
    lemma_names_include_concat(a1 + a2 + a3 + a4, a5, k);
    lemma_names_include_concat(a1 + a2 + a3 + a4 + a5, a6, k);
    lemma_names_include_concat(a1 + a2 + a3 + a4 + a5 + a6, a7, k);
    lemma_names_include_concat(a1 + a2 + a3 + a4 + a5 + a6 + a7, a8, k);
    lemma_names_include_concat(a1 + a2 + a3 + a4 + a5 + a6 + a7 + a8, a9, k);
}

/// Rights read back from the names stored for rights `p` are `p` again.
pub proof fn lemma_permissions_read_back(p: Permissions, q: Permissions)
    requires
        forall|k: PermissionKind| #[trigger] q.spec_grants(k) == names_include(granted_names_spec(p), k),
    ensures
        q == p,
{
    assert forall|k: PermissionKind| #[trigger] q.spec_grants(k) == p.spec_grants(k) by {
        lemma_permissions_roundtrip(p, k);
    }
    assert(q.spec_grants(PermissionKind::Users) == p.spec_grants(PermissionKind::Users));
    assert(q.spec_grants(PermissionKind::Permissions) == p.spec_grants(PermissionKind::Permissions));
    assert(q.spec_grants(PermissionKind::Query) == p.spec_grants(PermissionKind::Query));
    assert(q.spec_grants(PermissionKind::Images) == p.spec_grants(PermissionKind::Images));
    assert(q.spec_grants(PermissionKind::Cost) == p.spec_grants(PermissionKind::Cost));
    assert(q.spec_grants(PermissionKind::Admin) == p.spec_grants(PermissionKind::Admin));
    assert(q.spec_grants(PermissionKind::Stock) == p.spec_grants(PermissionKind::Stock));
    assert(q.spec_grants(PermissionKind::Reports) == p.spec_grants(PermissionKind::Reports));
    assert(q.spec_grants(PermissionKind::Stores) == p.spec_grants(PermissionKind::Stores));
}

/// Whether a lookup of a user's rights found them and they include `k`; a
/// failed lookup grants nothing.
pub fn permission_granted(lookup: &Result<Permissions, APIError>, k: PermissionKind) -> (r: bool)
    ensures
        r == (lookup matches Ok(p) && p.spec_grants(k)),
{
    match lookup {
        Ok(p) => p.grants(k),
        Err(_) => false,
    }
}

} // verus!

verus! {

/// Whether a lookup of a user's rights found them and they include `k` or
/// the admin right, which stands in for every other.
pub fn granted_or_admin(lookup: &Result<Permissions, APIError>, k: PermissionKind) -> (r: bool)
    ensures
        r == (lookup matches Ok(p) && (p.spec_grants(k) || p.spec_grants(PermissionKind::Admin))),
{
    match lookup {
        Ok(p) => p.grants(k) || p.grants(PermissionKind::Admin),
        Err(_) => false,
    }
}

} // verus!

verus! {

/// Whether a user's rights may be read or replaced after checking that the
/// user exists: only a user known to exist has rights; a user found missing,
/// and a check that failed, are both a missing user.
pub fn rights_holder_check(exists: Result<bool, APIError>) -> (r: Result<(), APIError>)
    ensures
        r == (if exists == Ok::<bool, APIError>(true) {
            Ok::<(), APIError>(())
        } else {
            Err::<(), APIError>(APIError::DataNotFound)
        }),
{
    match exists {
        Ok(true) => Ok(()),
        _ => Err(APIError::DataNotFound),
    }
}

} // verus!
