use vstd::prelude::*;

use crate::errors::APIError;
use crate::stores::Store;
use crate::text::{push_char, str_eq};

verus! {

/// An item of the inventory with its figures per store; the figures of a
/// store that the user may not see, and the average cost for a user who may
/// not see costs, are empty.
#[allow(non_snake_case)]
#[derive(Debug)]
pub struct Product {
    pub ITEM_ID: Option<String>,
    pub IS_ACTIVE: Option<String>,
    pub CAN_BE_SOLD: Option<String>,
    pub ITEM_DESC: Option<String>,
    pub ITEM_DESC_S: Option<String>,
    pub FOREIGN_ITEM_CODE: Option<String>,
    pub ITEM_CAT: Option<String>,
    pub ITEM_SUB_CAT: Option<String>,
    pub SALE_UNIT: Option<String>,
    pub UNIT_DESC: Option<String>,
    pub PACKING: Option<String>,
    pub CARD_OPEN_DATE: Option<String>,
    pub HS_CODE: Option<String>,
    pub COUNTRY: Option<String>,
    pub COUNTRY_DESC: Option<String>,
    pub SUPPLIER_ID: Option<String>,
    pub SUPPLIER_DESC: Option<String>,
    pub ITEM_MAIN_BARCODE: Option<String>,
    pub NATURE_ID: Option<String>,
    pub NATURE_DESC: Option<String>,
    pub TRADE_ID: Option<String>,
    pub TRADE_DESC: Option<String>,
    pub QTY_STORE_01: Option<String>,
    pub QTY_STORE_02: Option<String>,
    pub QTY_STORE_05: Option<String>,
    pub QTY_STORE_06: Option<String>,
    pub QTY_STORE_07: Option<String>,
    pub QTY_STORE_08: Option<String>,
    pub QTY_STORE_09: Option<String>,
    pub QTY_STORE_10: Option<String>,
    pub QTY_STORE_11: Option<String>,
    pub QTY_STORE_12: Option<String>,
    pub QTY_STORE_19: Option<String>,
    pub QTY_STORE_21: Option<String>,
    pub QTY_STORE_23: Option<String>,
    pub QTY_STORE_31: Option<String>,
    pub QTY_STORE_32: Option<String>,
    pub QTY_STORE_33: Option<String>,
    pub QTY_STORE_34: Option<String>,
    pub QTY_STORE_35: Option<String>,
    pub SALE_PRICE_NOTAX_STORE_01: Option<String>,
    pub SALE_PRICE_NOTAX_STORE_02: Option<String>,
    pub SALE_PRICE_NOTAX_STORE_05: Option<String>,
    pub SALE_PRICE_NOTAX_STORE_06: Option<String>,
    pub SALE_PRICE_NOTAX_STORE_08: Option<String>,
    pub SALE_PRICE_NOTAX_STORE_09: Option<String>,
    pub SALE_PRICE_NOTAX_STORE_07: Option<String>,
    pub SALE_PRICE_NOTAX_STORE_31: Option<String>,
    pub SALE_PRICE_NOTAX_STORE_32: Option<String>,
    pub SALE_PRICE_NOTAX_STORE_33: Option<String>,
    pub SALE_PRICE_NOTAX_STORE_34: Option<String>,
    pub SALE_PRICE_NOTAX_STORE_35: Option<String>,
    pub FIRST_DISC_PER_STORE_01: Option<String>,
    pub FIRST_DISC_PER_STORE_02: Option<String>,
    pub FIRST_DISC_PER_STORE_05: Option<String>,
    pub FIRST_DISC_PER_STORE_06: Option<String>,
    pub FIRST_DISC_PER_STORE_07: Option<String>,
    pub FIRST_DISC_PER_STORE_08: Option<String>,
    pub FIRST_DISC_PER_STORE_09: Option<String>,
    pub FIRST_DISC_PER_STORE_31: Option<String>,
    pub FIRST_DISC_PER_STORE_32: Option<String>,
    pub FIRST_DISC_PER_STORE_33: Option<String>,
    pub FIRST_DISC_PER_STORE_34: Option<String>,
    pub FIRST_DISC_PER_STORE_35: Option<String>,
    pub SECOND_DISC_PER_STORE_01: Option<String>,
    pub SECOND_DISC_PER_STORE_02: Option<String>,
    pub SECOND_DISC_PER_STORE_05: Option<String>,
    pub SECOND_DISC_PER_STORE_06: Option<String>,
    pub SECOND_DISC_PER_STORE_07: Option<String>,
    pub SECOND_DISC_PER_STORE_08: Option<String>,
    pub SECOND_DISC_PER_STORE_09: Option<String>,
    pub SECOND_DISC_PER_STORE_31: Option<String>,
    pub SECOND_DISC_PER_STORE_32: Option<String>,
    pub SECOND_DISC_PER_STORE_33: Option<String>,
    pub SECOND_DISC_PER_STORE_34: Option<String>,
    pub SECOND_DISC_PER_STORE_35: Option<String>,
    pub T_AVE_COST: Option<String>,
}

/// `value` when `visible`, nothing otherwise.
pub open spec fn shown(visible: bool, value: Option<String>) -> Option<String> {
    if visible {
        value
    } else {
        None
    }
}

/// Whether the store `id` is among the stores `ids` that the user may see.
pub open spec fn store_visible(ids: Seq<String>, id: Seq<char>) -> bool {
    exists|i: int| 0 <= i < ids.len() && ids[i]@ == id
}

/// `value` when `visible`, nothing otherwise.
pub fn keep(visible: bool, value: Option<String>) -> (r: Option<String>)
    ensures
        r == shown(visible, value),
{
    if visible {
        value
    } else {
        None
    }
}

/// Whether the store `id` is among `ids`.
pub fn has_store(ids: &Vec<String>, id: &str) -> (r: bool)
    ensures
        r == store_visible(ids@, id@),
{
    let mut i: usize = 0;
    while i < ids.len()
        invariant
            i <= ids.len(),
            forall|j: int| 0 <= j < i ==> ids@[j]@ != id@,
        decreases ids.len() - i,
    {
        if str_eq(ids[i].as_str(), id) {
            return true;
        }
        i = i + 1;
    }
    false
}

/// Whether `p` is the item `raw` as a user sees it who may see the stores
/// `ids`, and costs when `show_cost`.
pub open spec fn restricted(p: Product, raw: Product, ids: Seq<String>, show_cost: bool) -> bool {
    &&& p.ITEM_ID == raw.ITEM_ID
    &&& p.IS_ACTIVE == raw.IS_ACTIVE
    &&& p.CAN_BE_SOLD == raw.CAN_BE_SOLD
    &&& p.ITEM_DESC == raw.ITEM_DESC
    &&& p.ITEM_DESC_S == raw.ITEM_DESC_S
    &&& p.FOREIGN_ITEM_CODE == raw.FOREIGN_ITEM_CODE
    &&& p.ITEM_CAT == raw.ITEM_CAT
    &&& p.ITEM_SUB_CAT == raw.ITEM_SUB_CAT
    &&& p.SALE_UNIT == raw.SALE_UNIT
    &&& p.UNIT_DESC == raw.UNIT_DESC
    &&& p.PACKING == raw.PACKING
    &&& p.CARD_OPEN_DATE == raw.CARD_OPEN_DATE
    &&& p.HS_CODE == raw.HS_CODE
    &&& p.COUNTRY == raw.COUNTRY
    &&& p.COUNTRY_DESC == raw.COUNTRY_DESC
    &&& p.SUPPLIER_ID == raw.SUPPLIER_ID
    &&& p.SUPPLIER_DESC == raw.SUPPLIER_DESC
    &&& p.ITEM_MAIN_BARCODE == raw.ITEM_MAIN_BARCODE
    &&& p.NATURE_ID == raw.NATURE_ID
    &&& p.NATURE_DESC == raw.NATURE_DESC
    &&& p.TRADE_ID == raw.TRADE_ID
    &&& p.TRADE_DESC == raw.TRADE_DESC
    &&& p.QTY_STORE_01 == shown(store_visible(ids, "01"@), raw.QTY_STORE_01)
    &&& p.QTY_STORE_02 == shown(store_visible(ids, "02"@), raw.QTY_STORE_02)
    &&& p.QTY_STORE_05 == shown(store_visible(ids, "05"@), raw.QTY_STORE_05)
    &&& p.QTY_STORE_06 == shown(store_visible(ids, "06"@), raw.QTY_STORE_06)
    &&& p.QTY_STORE_07 == shown(store_visible(ids, "07"@), raw.QTY_STORE_07)
    &&& p.QTY_STORE_08 == shown(store_visible(ids, "08"@), raw.QTY_STORE_08)
    &&& p.QTY_STORE_09 == shown(store_visible(ids, "09"@), raw.QTY_STORE_09)
    &&& p.QTY_STORE_10 == shown(store_visible(ids, "10"@), raw.QTY_STORE_10)
    &&& p.QTY_STORE_11 == shown(store_visible(ids, "11"@), raw.QTY_STORE_11)
    &&& p.QTY_STORE_12 == shown(store_visible(ids, "12"@), raw.QTY_STORE_12)
    &&& p.QTY_STORE_19 == shown(store_visible(ids, "19"@), raw.QTY_STORE_19)
    &&& p.QTY_STORE_21 == shown(store_visible(ids, "21"@), raw.QTY_STORE_21)
    &&& p.QTY_STORE_23 == shown(store_visible(ids, "23"@), raw.QTY_STORE_23)
    &&& p.QTY_STORE_31 == shown(store_visible(ids, "31"@), raw.QTY_STORE_31)
    &&& p.QTY_STORE_32 == shown(store_visible(ids, "32"@), raw.QTY_STORE_32)
    &&& p.QTY_STORE_33 == shown(store_visible(ids, "33"@), raw.QTY_STORE_33)
    &&& p.QTY_STORE_34 == shown(store_visible(ids, "34"@), raw.QTY_STORE_34)
    &&& p.QTY_STORE_35 == shown(store_visible(ids, "35"@), raw.QTY_STORE_35)
    &&& p.SALE_PRICE_NOTAX_STORE_01 == shown(store_visible(ids, "01"@), raw.SALE_PRICE_NOTAX_STORE_01)
    &&& p.SALE_PRICE_NOTAX_STORE_02 == shown(store_visible(ids, "02"@), raw.SALE_PRICE_NOTAX_STORE_02)
    &&& p.SALE_PRICE_NOTAX_STORE_05 == shown(store_visible(ids, "05"@), raw.SALE_PRICE_NOTAX_STORE_05)
    &&& p.SALE_PRICE_NOTAX_STORE_06 == shown(store_visible(ids, "06"@), raw.SALE_PRICE_NOTAX_STORE_06)
    &&& p.SALE_PRICE_NOTAX_STORE_08 == shown(store_visible(ids, "08"@), raw.SALE_PRICE_NOTAX_STORE_08)
    &&& p.SALE_PRICE_NOTAX_STORE_09 == shown(store_visible(ids, "09"@), raw.SALE_PRICE_NOTAX_STORE_09)
    &&& p.SALE_PRICE_NOTAX_STORE_07 == shown(store_visible(ids, "07"@), raw.SALE_PRICE_NOTAX_STORE_07)
    &&& p.SALE_PRICE_NOTAX_STORE_31 == shown(store_visible(ids, "31"@), raw.SALE_PRICE_NOTAX_STORE_31)
    &&& p.SALE_PRICE_NOTAX_STORE_32 == shown(store_visible(ids, "32"@), raw.SALE_PRICE_NOTAX_STORE_32)
    &&& p.SALE_PRICE_NOTAX_STORE_33 == shown(store_visible(ids, "33"@), raw.SALE_PRICE_NOTAX_STORE_33)
    &&& p.SALE_PRICE_NOTAX_STORE_34 == shown(store_visible(ids, "34"@), raw.SALE_PRICE_NOTAX_STORE_34)
    &&& p.SALE_PRICE_NOTAX_STORE_35 == shown(store_visible(ids, "35"@), raw.SALE_PRICE_NOTAX_STORE_35)
    &&& p.FIRST_DISC_PER_STORE_01 == shown(store_visible(ids, "01"@), raw.FIRST_DISC_PER_STORE_01)
    &&& p.FIRST_DISC_PER_STORE_02 == shown(store_visible(ids, "02"@), raw.FIRST_DISC_PER_STORE_02)
    &&& p.FIRST_DISC_PER_STORE_05 == shown(store_visible(ids, "05"@), raw.FIRST_DISC_PER_STORE_05)
    &&& p.FIRST_DISC_PER_STORE_06 == shown(store_visible(ids, "06"@), raw.FIRST_DISC_PER_STORE_06)
    &&& p.FIRST_DISC_PER_STORE_07 == shown(store_visible(ids, "07"@), raw.FIRST_DISC_PER_STORE_07)
    &&& p.FIRST_DISC_PER_STORE_08 == shown(store_visible(ids, "08"@), raw.FIRST_DISC_PER_STORE_08)
    &&& p.FIRST_DISC_PER_STORE_09 == shown(store_visible(ids, "09"@), raw.FIRST_DISC_PER_STORE_09)
    &&& p.FIRST_DISC_PER_STORE_31 == shown(store_visible(ids, "31"@), raw.FIRST_DISC_PER_STORE_31)
    &&& p.FIRST_DISC_PER_STORE_32 == shown(store_visible(ids, "32"@), raw.FIRST_DISC_PER_STORE_32)
    &&& p.FIRST_DISC_PER_STORE_33 == shown(store_visible(ids, "33"@), raw.FIRST_DISC_PER_STORE_33)
    &&& p.FIRST_DISC_PER_STORE_34 == shown(store_visible(ids, "34"@), raw.FIRST_DISC_PER_STORE_34)
    &&& p.FIRST_DISC_PER_STORE_35 == shown(store_visible(ids, "35"@), raw.FIRST_DISC_PER_STORE_35)
    &&& p.SECOND_DISC_PER_STORE_01 == shown(store_visible(ids, "01"@), raw.SECOND_DISC_PER_STORE_01)
    &&& p.SECOND_DISC_PER_STORE_02 == shown(store_visible(ids, "02"@), raw.SECOND_DISC_PER_STORE_02)
    &&& p.SECOND_DISC_PER_STORE_05 == shown(store_visible(ids, "05"@), raw.SECOND_DISC_PER_STORE_05)
    &&& p.SECOND_DISC_PER_STORE_06 == shown(store_visible(ids, "06"@), raw.SECOND_DISC_PER_STORE_06)
    &&& p.SECOND_DISC_PER_STORE_07 == shown(store_visible(ids, "07"@), raw.SECOND_DISC_PER_STORE_07)
    &&& p.SECOND_DISC_PER_STORE_08 == shown(store_visible(ids, "08"@), raw.SECOND_DISC_PER_STORE_08)
    &&& p.SECOND_DISC_PER_STORE_09 == shown(store_visible(ids, "09"@), raw.SECOND_DISC_PER_STORE_09)
    &&& p.SECOND_DISC_PER_STORE_31 == shown(store_visible(ids, "31"@), raw.SECOND_DISC_PER_STORE_31)
    &&& p.SECOND_DISC_PER_STORE_32 == shown(store_visible(ids, "32"@), raw.SECOND_DISC_PER_STORE_32)
    &&& p.SECOND_DISC_PER_STORE_33 == shown(store_visible(ids, "33"@), raw.SECOND_DISC_PER_STORE_33)
    &&& p.SECOND_DISC_PER_STORE_34 == shown(store_visible(ids, "34"@), raw.SECOND_DISC_PER_STORE_34)
    &&& p.SECOND_DISC_PER_STORE_35 == shown(store_visible(ids, "35"@), raw.SECOND_DISC_PER_STORE_35)
    &&& p.T_AVE_COST == shown(show_cost, raw.T_AVE_COST)
}

/// The item `raw` as a user sees it who may see the stores `ids`, and costs
/// when `show_cost`: the figures of every other store, and the cost when it
/// may not be seen, are emptied; the rest is kept.
pub fn restrict_product(raw: Product, ids: &Vec<String>, show_cost: bool) -> (r: Product)
    ensures
        restricted(r, raw, ids@, show_cost),
{
    let v01 = has_store(ids, "01");
    let v02 = has_store(ids, "02");
    let v05 = has_store(ids, "05");
    let v06 = has_store(ids, "06");
    let v07 = has_store(ids, "07");
    let v08 = has_store(ids, "08");
    let v09 = has_store(ids, "09");
    let v10 = has_store(ids, "10");
    let v11 = has_store(ids, "11");
    let v12 = has_store(ids, "12");
    let v19 = has_store(ids, "19");
    let v21 = has_store(ids, "21");
    let v23 = has_store(ids, "23");
    let v31 = has_store(ids, "31");
    let v32 = has_store(ids, "32");
    let v33 = has_store(ids, "33");
    let v34 = has_store(ids, "34");
    let v35 = has_store(ids, "35");
    Product {
        ITEM_ID: raw.ITEM_ID,
        IS_ACTIVE: raw.IS_ACTIVE,
        CAN_BE_SOLD: raw.CAN_BE_SOLD,
        ITEM_DESC: raw.ITEM_DESC,
        ITEM_DESC_S: raw.ITEM_DESC_S,
        FOREIGN_ITEM_CODE: raw.FOREIGN_ITEM_CODE,
        ITEM_CAT: raw.ITEM_CAT,
        ITEM_SUB_CAT: raw.ITEM_SUB_CAT,
        SALE_UNIT: raw.SALE_UNIT,
        UNIT_DESC: raw.UNIT_DESC,
        PACKING: raw.PACKING,
        CARD_OPEN_DATE: raw.CARD_OPEN_DATE,
        HS_CODE: raw.HS_CODE,
        COUNTRY: raw.COUNTRY,
        COUNTRY_DESC: raw.COUNTRY_DESC,
        SUPPLIER_ID: raw.SUPPLIER_ID,
        SUPPLIER_DESC: raw.SUPPLIER_DESC,
        ITEM_MAIN_BARCODE: raw.ITEM_MAIN_BARCODE,
        NATURE_ID: raw.NATURE_ID,
        NATURE_DESC: raw.NATURE_DESC,
        TRADE_ID: raw.TRADE_ID,
        TRADE_DESC: raw.TRADE_DESC,
        QTY_STORE_01: keep(v01, raw.QTY_STORE_01),
        QTY_STORE_02: keep(v02, raw.QTY_STORE_02),
        QTY_STORE_05: keep(v05, raw.QTY_STORE_05),
        QTY_STORE_06: keep(v06, raw.QTY_STORE_06),
        QTY_STORE_07: keep(v07, raw.QTY_STORE_07),
        QTY_STORE_08: keep(v08, raw.QTY_STORE_08),
        QTY_STORE_09: keep(v09, raw.QTY_STORE_09),
        QTY_STORE_10: keep(v10, raw.QTY_STORE_10),
        QTY_STORE_11: keep(v11, raw.QTY_STORE_11),
        QTY_STORE_12: keep(v12, raw.QTY_STORE_12),
        QTY_STORE_19: keep(v19, raw.QTY_STORE_19),
        QTY_STORE_21: keep(v21, raw.QTY_STORE_21),
        QTY_STORE_23: keep(v23, raw.QTY_STORE_23),
        QTY_STORE_31: keep(v31, raw.QTY_STORE_31),
        QTY_STORE_32: keep(v32, raw.QTY_STORE_32),
        QTY_STORE_33: keep(v33, raw.QTY_STORE_33),
        QTY_STORE_34: keep(v34, raw.QTY_STORE_34),
        QTY_STORE_35: keep(v35, raw.QTY_STORE_35),
        SALE_PRICE_NOTAX_STORE_01: keep(v01, raw.SALE_PRICE_NOTAX_STORE_01),
        SALE_PRICE_NOTAX_STORE_02: keep(v02, raw.SALE_PRICE_NOTAX_STORE_02),
        SALE_PRICE_NOTAX_STORE_05: keep(v05, raw.SALE_PRICE_NOTAX_STORE_05),
        SALE_PRICE_NOTAX_STORE_06: keep(v06, raw.SALE_PRICE_NOTAX_STORE_06),
        SALE_PRICE_NOTAX_STORE_08: keep(v08, raw.SALE_PRICE_NOTAX_STORE_08),
        SALE_PRICE_NOTAX_STORE_09: keep(v09, raw.SALE_PRICE_NOTAX_STORE_09),
        SALE_PRICE_NOTAX_STORE_07: keep(v07, raw.SALE_PRICE_NOTAX_STORE_07),
        SALE_PRICE_NOTAX_STORE_31: keep(v31, raw.SALE_PRICE_NOTAX_STORE_31),
        SALE_PRICE_NOTAX_STORE_32: keep(v32, raw.SALE_PRICE_NOTAX_STORE_32),
        SALE_PRICE_NOTAX_STORE_33: keep(v33, raw.SALE_PRICE_NOTAX_STORE_33),
        SALE_PRICE_NOTAX_STORE_34: keep(v34, raw.SALE_PRICE_NOTAX_STORE_34),
        SALE_PRICE_NOTAX_STORE_35: keep(v35, raw.SALE_PRICE_NOTAX_STORE_35),
        FIRST_DISC_PER_STORE_01: keep(v01, raw.FIRST_DISC_PER_STORE_01),
        FIRST_DISC_PER_STORE_02: keep(v02, raw.FIRST_DISC_PER_STORE_02),
        FIRST_DISC_PER_STORE_05: keep(v05, raw.FIRST_DISC_PER_STORE_05),
        FIRST_DISC_PER_STORE_06: keep(v06, raw.FIRST_DISC_PER_STORE_06),
        FIRST_DISC_PER_STORE_07: keep(v07, raw.FIRST_DISC_PER_STORE_07),
        FIRST_DISC_PER_STORE_08: keep(v08, raw.FIRST_DISC_PER_STORE_08),
        FIRST_DISC_PER_STORE_09: keep(v09, raw.FIRST_DISC_PER_STORE_09),
        FIRST_DISC_PER_STORE_31: keep(v31, raw.FIRST_DISC_PER_STORE_31),
        FIRST_DISC_PER_STORE_32: keep(v32, raw.FIRST_DISC_PER_STORE_32),
        FIRST_DISC_PER_STORE_33: keep(v33, raw.FIRST_DISC_PER_STORE_33),
        FIRST_DISC_PER_STORE_34: keep(v34, raw.FIRST_DISC_PER_STORE_34),
        FIRST_DISC_PER_STORE_35: keep(v35, raw.FIRST_DISC_PER_STORE_35),
        SECOND_DISC_PER_STORE_01: keep(v01, raw.SECOND_DISC_PER_STORE_01),
        SECOND_DISC_PER_STORE_02: keep(v02, raw.SECOND_DISC_PER_STORE_02),
        SECOND_DISC_PER_STORE_05: keep(v05, raw.SECOND_DISC_PER_STORE_05),
        SECOND_DISC_PER_STORE_06: keep(v06, raw.SECOND_DISC_PER_STORE_06),
        SECOND_DISC_PER_STORE_07: keep(v07, raw.SECOND_DISC_PER_STORE_07),
        SECOND_DISC_PER_STORE_08: keep(v08, raw.SECOND_DISC_PER_STORE_08),
        SECOND_DISC_PER_STORE_09: keep(v09, raw.SECOND_DISC_PER_STORE_09),
        SECOND_DISC_PER_STORE_31: keep(v31, raw.SECOND_DISC_PER_STORE_31),
        SECOND_DISC_PER_STORE_32: keep(v32, raw.SECOND_DISC_PER_STORE_32),
        SECOND_DISC_PER_STORE_33: keep(v33, raw.SECOND_DISC_PER_STORE_33),
        SECOND_DISC_PER_STORE_34: keep(v34, raw.SECOND_DISC_PER_STORE_34),
        SECOND_DISC_PER_STORE_35: keep(v35, raw.SECOND_DISC_PER_STORE_35),
        T_AVE_COST: keep(show_cost, raw.T_AVE_COST),
    }
}

/// The figures that an item holds for the store `id`, in the order of the fields.
pub open spec fn store_figures(p: Product, id: Seq<char>) -> Seq<Option<String>> {
    if id == "01"@ {
        seq![p.QTY_STORE_01, p.SALE_PRICE_NOTAX_STORE_01, p.FIRST_DISC_PER_STORE_01, p.SECOND_DISC_PER_STORE_01]
    } else if id == "02"@ {
        seq![p.QTY_STORE_02, p.SALE_PRICE_NOTAX_STORE_02, p.FIRST_DISC_PER_STORE_02, p.SECOND_DISC_PER_STORE_02]
    } else if id == "05"@ {
        seq![p.QTY_STORE_05, p.SALE_PRICE_NOTAX_STORE_05, p.FIRST_DISC_PER_STORE_05, p.SECOND_DISC_PER_STORE_05]
    } else if id == "06"@ {
        seq![p.QTY_STORE_06, p.SALE_PRICE_NOTAX_STORE_06, p.FIRST_DISC_PER_STORE_06, p.SECOND_DISC_PER_STORE_06]
    } else if id == "07"@ {
        seq![p.QTY_STORE_07, p.SALE_PRICE_NOTAX_STORE_07, p.FIRST_DISC_PER_STORE_07, p.SECOND_DISC_PER_STORE_07]
    } else if id == "08"@ {
        seq![p.QTY_STORE_08, p.SALE_PRICE_NOTAX_STORE_08, p.FIRST_DISC_PER_STORE_08, p.SECOND_DISC_PER_STORE_08]
    } else if id == "09"@ {
        seq![p.QTY_STORE_09, p.SALE_PRICE_NOTAX_STORE_09, p.FIRST_DISC_PER_STORE_09, p.SECOND_DISC_PER_STORE_09]
    } else if id == "10"@ {
        seq![p.QTY_STORE_10]
    } else if id == "11"@ {
        seq![p.QTY_STORE_11]
    } else if id == "12"@ {
        seq![p.QTY_STORE_12]
    } else if id == "19"@ {
        seq![p.QTY_STORE_19]
    } else if id == "21"@ {
        seq![p.QTY_STORE_21]
    } else if id == "23"@ {
        seq![p.QTY_STORE_23]
    } else if id == "31"@ {
        seq![p.QTY_STORE_31, p.SALE_PRICE_NOTAX_STORE_31, p.FIRST_DISC_PER_STORE_31, p.SECOND_DISC_PER_STORE_31]
    } else if id == "32"@ {
        seq![p.QTY_STORE_32, p.SALE_PRICE_NOTAX_STORE_32, p.FIRST_DISC_PER_STORE_32, p.SECOND_DISC_PER_STORE_32]
    } else if id == "33"@ {
        seq![p.QTY_STORE_33, p.SALE_PRICE_NOTAX_STORE_33, p.FIRST_DISC_PER_STORE_33, p.SECOND_DISC_PER_STORE_33]
    } else if id == "34"@ {
        seq![p.QTY_STORE_34, p.SALE_PRICE_NOTAX_STORE_34, p.FIRST_DISC_PER_STORE_34, p.SECOND_DISC_PER_STORE_34]
    } else if id == "35"@ {
        seq![p.QTY_STORE_35, p.SALE_PRICE_NOTAX_STORE_35, p.FIRST_DISC_PER_STORE_35, p.SECOND_DISC_PER_STORE_35]
    } else {
        Seq::empty()
    }
}

/// A user sees no figure of a store that is not among the stores that the
/// user may see.
pub proof fn lemma_hidden_store_figures_are_empty(p: Product, raw: Product, ids: Seq<String>, show_cost: bool, id: Seq<char>)
    requires
        restricted(p, raw, ids, show_cost),
        !store_visible(ids, id),
    ensures
        forall|i: int| 0 <= i < store_figures(p, id).len() ==> (#[trigger] store_figures(p, id)[i]) is None,
{
    if id == "01"@ {
        assert(store_figures(p, id) =~= store_figures(p, "01"@));
    } else if id == "02"@ {
        assert(store_figures(p, id) =~= store_figures(p, "02"@));
    } else if id == "05"@ {
        assert(store_figures(p, id) =~= store_figures(p, "05"@));
    } else if id == "06"@ {
        assert(store_figures(p, id) =~= store_figures(p, "06"@));
    } else if id == "07"@ {
        assert(store_figures(p, id) =~= store_figures(p, "07"@));
    } else if id == "08"@ {
        assert(store_figures(p, id) =~= store_figures(p, "08"@));
    } else if id == "09"@ {
        assert(store_figures(p, id) =~= store_figures(p, "09"@));
    } else if id == "10"@ {
        assert(store_figures(p, id) =~= store_figures(p, "10"@));
    } else if id == "11"@ {
        assert(store_figures(p, id) =~= store_figures(p, "11"@));
    } else if id == "12"@ {
        assert(store_figures(p, id) =~= store_figures(p, "12"@));
    } else if id == "19"@ {
        assert(store_figures(p, id) =~= store_figures(p, "19"@));
    } else if id == "21"@ {
        assert(store_figures(p, id) =~= store_figures(p, "21"@));
    } else if id == "23"@ {
        assert(store_figures(p, id) =~= store_figures(p, "23"@));
    } else if id == "31"@ {
        assert(store_figures(p, id) =~= store_figures(p, "31"@));
    } else if id == "32"@ {
        assert(store_figures(p, id) =~= store_figures(p, "32"@));
    } else if id == "33"@ {
        assert(store_figures(p, id) =~= store_figures(p, "33"@));
    } else if id == "34"@ {
        assert(store_figures(p, id) =~= store_figures(p, "34"@));
    } else if id == "35"@ {
        assert(store_figures(p, id) =~= store_figures(p, "35"@));
    }
}


/// The search fields of a product query; each given field narrows the search.
#[derive(Debug)]
pub struct FetchParams {
    pub p_ref: Option<String>,
    pub p_barcode: Option<String>,
    pub p_id: Option<String>,
    pub p_desc: Option<String>,
}

impl FetchParams {
    /// Whether no search field is given (the search then finds nothing).
    pub fn is_none(&self) -> (r: bool)
        ensures
            r == (self.p_ref is None && self.p_barcode is None && self.p_id is None && self.p_desc is None),
    {
        self.p_ref.is_none() && self.p_barcode.is_none() && self.p_id.is_none() && self.p_desc.is_none()
    }
}

/// The identifiers of the stores in a list of stores.
pub open spec fn store_ids_of(stores: Seq<Store>) -> Seq<Seq<char>> {
    stores.map_values(|st: Store| st.STORE_ID->Some_0@)
}

/// The identifiers of the stores that a user may see, from the list of the
/// user's stores; every store in the list has an identifier.
pub fn accessible_store_ids(stores: &Vec<Store>) -> (r: Vec<String>)
    requires
        forall|i: int| 0 <= i < stores.len() ==> (#[trigger] stores@[i]).STORE_ID is Some,
    ensures
        r@.map_values(|s: String| s@) == store_ids_of(stores@),
{
    let mut r: Vec<String> = Vec::new();
    let mut i: usize = 0;
    while i < stores.len()
        invariant
            i <= stores.len(),
            forall|j: int| 0 <= j < stores.len() ==> (#[trigger] stores@[j]).STORE_ID is Some,
            r@.map_values(|s: String| s@) == store_ids_of(stores@.subrange(0, i as int)),
        decreases stores.len() - i,
    {
        let id = match &stores[i].STORE_ID {
            Some(x) => x.clone(),
            None => String::new(),
        };
        let ghost before = r@.map_values(|s: String| s@);
        r.push(id);
        proof {
            assert(stores@[i as int].STORE_ID is Some);
            assert(store_ids_of(stores@.subrange(0, i + 1)) =~= store_ids_of(stores@.subrange(0, i as int)).push(
                stores@[i as int].STORE_ID->Some_0@,
            ));
            assert(r@.map_values(|s: String| s@) =~= before.push(stores@[i as int].STORE_ID->Some_0@));
        }
        i = i + 1;
    }
    assert(stores@.subrange(0, stores.len() as int) =~= stores@);
    r
}

/// A search value that begins or ends with `%` is a pattern; any other is
/// matched exactly.
pub open spec fn is_pattern(v: Seq<char>) -> bool {
    v.len() > 0 && (v[0] == '%' || v.last() == '%')
}

/// Whether the search value begins or ends with `%`.
pub fn is_pattern_value(v: &str) -> (r: bool)
    ensures
        r == is_pattern(v@),
{
    let n = v.unicode_len();
    if n == 0 {
        false
    } else {
        v.get_char(0) == '%' || v.get_char(n - 1) == '%'
    }
}

/// The condition on the column `col` for the search value `v`: a `LIKE`
/// for a pattern, an equality otherwise, each against the bind named as the column.
pub open spec fn column_condition(col: Seq<char>, v: Seq<char>) -> Seq<char> {
    if is_pattern(v) {
        " "@ + col + " LIKE :"@ + col
    } else {
        " "@ + col + " = :"@ + col
    }
}

/// The condition on the barcode list for the barcode `v`: it ends with `v`
/// when `v` is a pattern, it contains `v` otherwise.
pub open spec fn barcode_condition(v: Seq<char>) -> Seq<char> {
    if is_pattern(v) {
        " BARCODE_LISTED LIKE '%' || :barcode"@
    } else {
        " BARCODE_LISTED LIKE '%' || :barcode || '%'"@
    }
}

/// The condition for an optional search field.
pub open spec fn optional_condition(col: Seq<char>, v: Option<String>) -> Seq<Seq<char>> {
    match v {
        Some(x) => seq![column_condition(col, x@)],
        None => Seq::empty(),
    }
}

/// The conditions of a search, in the order reference, id, description, barcode.
pub open spec fn query_conditions(p: FetchParams) -> Seq<Seq<char>> {
    optional_condition("FOREIGN_ITEM_CODE"@, p.p_ref) + optional_condition("ITEM_ID"@, p.p_id)
        + optional_condition("ITEM_DESC_S"@, p.p_desc) + match p.p_barcode {
        Some(x) => seq![barcode_condition(x@)],
        None => Seq::empty(),
    }
}

/// Conditions joined by ` AND`.
pub open spec fn joined(conds: Seq<Seq<char>>) -> Seq<char>
    decreases conds.len(),
{
    if conds.len() == 0 {
        Seq::empty()
    } else if conds.len() == 1 {
        conds[0]
    } else {
        joined(conds.drop_last()) + " AND"@ + conds.last()
    }
}

/// The text with which every product query begins.
pub open spec fn query_head() -> Seq<char> {
    "SELECT * FROM ODBC_JHC.JHC_INVDATA WHERE"@
}

/// The SQL text of the search `p`.
pub open spec fn query_sql(p: FetchParams) -> Seq<char> {
    query_head() + joined(query_conditions(p))
}

/// A bind of a search value, by name.
pub open spec fn optional_bind(name: Seq<char>, v: Option<String>) -> Seq<(Seq<char>, Seq<char>)> {
    match v {
        Some(x) => seq![(name, x@)],
        None => Seq::empty(),
    }
}

/// The binds of the search `p`, in the order of its conditions.
pub open spec fn query_binds(p: FetchParams) -> Seq<(Seq<char>, Seq<char>)> {
    optional_bind("FOREIGN_ITEM_CODE"@, p.p_ref) + optional_bind("ITEM_ID"@, p.p_id) + optional_bind(
        "ITEM_DESC_S"@,
        p.p_desc,
    ) + optional_bind("barcode"@, p.p_barcode)
}

/// A product query: its SQL text and its named binds.
#[derive(Debug)]
pub struct ProductQuery {
    pub sql: String,
    pub binds: Vec<(String, String)>,
}

/// The views of a list of binds.
pub open spec fn binds_view(b: Seq<(String, String)>) -> Seq<(Seq<char>, Seq<char>)> {
    b.map_values(|x: (String, String)| (x.0@, x.1@))
}

fn add_condition(sql: &mut String, conds: Ghost<Seq<Seq<char>>>, any: bool, cond: &str)
    requires
        old(sql)@ == query_head() + joined(conds@),
        any == (conds@.len() > 0),
    ensures
        final(sql)@ == query_head() + joined(conds@.push(cond@)),
{
    let ghost c = conds@.push(cond@);
    assert(c.drop_last() =~= conds@);
    if any {
        sql.append(" AND");
        sql.append(cond);
        assert(final(sql)@ =~= query_head() + joined(c));
    } else {
        sql.append(cond);
        assert(final(sql)@ =~= query_head() + joined(c));
    }
}

fn column_condition_text(col: &str, v: &str) -> (r: String)
    ensures
        r@ == column_condition(col@, v@),
{
    let mut r = String::from_str(" ");
    r.append(col);
    if is_pattern_value(v) {
        r.append(" LIKE :");
    } else {
        r.append(" = :");
    }
    r.append(col);
    r
}

fn push_bind(binds: &mut Vec<(String, String)>, name: &str, v: &String)
    ensures
        binds_view(final(binds)@) == binds_view(old(binds)@).push((name@, v@)),
{
    binds.push((String::from_str(name), v.clone()));
    assert(binds_view(final(binds)@) =~= binds_view(old(binds)@).push((name@, v@)));
}

/// The SQL text and the binds of the search `p`: one condition for each given
/// field, joined by ` AND`, each bound by name to the field's value.
pub fn build_product_query(p: &FetchParams) -> (r: ProductQuery)
    ensures
        r.sql@ == query_sql(*p),
        binds_view(r.binds@) == query_binds(*p),
{
    let mut sql = String::from_str("SELECT * FROM ODBC_JHC.JHC_INVDATA WHERE");
    let mut binds: Vec<(String, String)> = Vec::new();
    let ghost mut conds: Seq<Seq<char>> = Seq::empty();
    let ghost mut bs: Seq<(Seq<char>, Seq<char>)> = Seq::empty();
    let mut any = false;
    assert(sql@ =~= query_head() + joined(conds));
    assert(binds_view(binds@) =~= bs);
    if let Some(v) = &p.p_ref {
        let c = column_condition_text("FOREIGN_ITEM_CODE", v.as_str());
        add_condition(&mut sql, Ghost(conds), any, c.as_str());
        any = true;
        push_bind(&mut binds, "FOREIGN_ITEM_CODE", v);
        proof {
            conds = conds.push(c@);
            bs = bs.push(("FOREIGN_ITEM_CODE"@, v@));
        }
    }
    assert(conds =~= optional_condition("FOREIGN_ITEM_CODE"@, p.p_ref));
    assert(bs =~= optional_bind("FOREIGN_ITEM_CODE"@, p.p_ref));
    let ghost c1 = conds;
    assert(any == (conds.len() > 0));
    let ghost b1 = bs;
    if let Some(v) = &p.p_id {
        let c = column_condition_text("ITEM_ID", v.as_str());
        add_condition(&mut sql, Ghost(conds), any, c.as_str());
        any = true;
        push_bind(&mut binds, "ITEM_ID", v);
        proof {
            conds = conds.push(c@);
            bs = bs.push(("ITEM_ID"@, v@));
        }
    }
    assert(conds =~= c1 + optional_condition("ITEM_ID"@, p.p_id));
    assert(bs =~= b1 + optional_bind("ITEM_ID"@, p.p_id));
    let ghost c2 = conds;
    assert(any == (conds.len() > 0));
    let ghost b2 = bs;
    if let Some(v) = &p.p_desc {
        let c = column_condition_text("ITEM_DESC_S", v.as_str());
        add_condition(&mut sql, Ghost(conds), any, c.as_str());
        any = true;
        push_bind(&mut binds, "ITEM_DESC_S", v);
        proof {
            conds = conds.push(c@);
            bs = bs.push(("ITEM_DESC_S"@, v@));
        }
    }
    assert(conds =~= c2 + optional_condition("ITEM_DESC_S"@, p.p_desc));
    assert(bs =~= b2 + optional_bind("ITEM_DESC_S"@, p.p_desc));
    let ghost c3 = conds;
    assert(any == (conds.len() > 0));
    let ghost b3 = bs;
    if let Some(v) = &p.p_barcode {
        let c = if is_pattern_value(v.as_str()) {
            String::from_str(" BARCODE_LISTED LIKE '%' || :barcode")
        } else {
            String::from_str(" BARCODE_LISTED LIKE '%' || :barcode || '%'")
        };
        add_condition(&mut sql, Ghost(conds), any, c.as_str());
        any = true;
        push_bind(&mut binds, "barcode", v);
        proof {
            conds = conds.push(c@);
            bs = bs.push(("barcode"@, v@));
        }
    }
    assert(conds =~= c3 + match p.p_barcode {
        Some(x) => seq![barcode_condition(x@)],
        None => Seq::empty(),
    });
    assert(bs =~= b3 + optional_bind("barcode"@, p.p_barcode));
    assert(conds =~= query_conditions(*p));
    assert(bs =~= query_binds(*p));
    ProductQuery { sql, binds }
}

/// A search with no field gives no items and touches no data: the lookup
/// that the search needs is only made for a search with some field.
pub fn search_needed(p: &FetchParams) -> (r: bool)
    ensures
        r == !(p.p_ref is None && p.p_barcode is None && p.p_id is None && p.p_desc is None),
{
    !p.is_none()
}

/// The user of a product search is the one that the token names; a token
/// that does not decode is an invalid token.
pub fn search_user(decoded: &Option<crate::signing::User>) -> (r: Result<String, APIError>)
    requires
        decoded matches Some(u) ==> u.USER_ID is Some,
    ensures
        decoded is None ==> r == Err::<String, APIError>(APIError::InvalidToken),
        decoded matches Some(u) ==> (r matches Ok(n) && n@ == u.USER_ID->Some_0@),
{
    match decoded {
        None => Err(APIError::InvalidToken),
        Some(u) => match &u.USER_ID {
            Some(id) => Ok(id.clone()),
            None => Err(APIError::InvalidToken),
        },
    }
}

/// Every given search field yields exactly one condition and one bind, and
/// the text of the query is the head followed by its conditions.
pub proof fn lemma_conditions_match_binds(p: FetchParams)
    ensures
        query_conditions(p).len() == query_binds(p).len(),
        p.p_ref is None && p.p_barcode is None && p.p_id is None && p.p_desc is None ==> query_sql(p) == query_head(),
{
    if p.p_ref is None && p.p_barcode is None && p.p_id is None && p.p_desc is None {
        assert(query_conditions(p) =~= Seq::<Seq<char>>::empty());
    }
}

} // verus!

verus! {

/// The texts of a list of strings.
pub open spec fn report_texts(v: Seq<String>) -> Seq<Seq<char>> {
    v.map_values(|s: String| s@)
}

/// The supplier whose products the store report lists.
pub const REPORT_SUPPLIER: i32 = 200;

/// The relative widths of the report's columns.
pub fn report_column_weights() -> (r: Vec<usize>)
    ensures
        r@ == seq![2usize, 1, 4, 1, 1],
{
    let r: Vec<usize> = vec![2, 1, 4, 1, 1];
    assert(r@ =~= seq![2usize, 1, 4, 1, 1]);
    r
}

/// The headings of the report's columns.
pub fn report_header() -> (r: Vec<String>)
    ensures
        report_texts(r@) == seq!["Image"@, "Product ID"@, "Product Desc"@, "Store 2 price"@, "Store 2 QTY"@],
{
    let mut r: Vec<String> = Vec::new();
    r.push(String::from_str("Image"));
    r.push(String::from_str("Product ID"));
    r.push(String::from_str("Product Desc"));
    r.push(String::from_str("Store 2 price"));
    r.push(String::from_str("Store 2 QTY"));
    assert(report_texts(r@) =~= seq!["Image"@, "Product ID"@, "Product Desc"@, "Store 2 price"@, "Store 2 QTY"@]);
    r
}

/// Whether a product has the fields that its report row shows.
pub open spec fn reportable(p: Product) -> bool {
    &&& p.ITEM_ID is Some
    &&& p.ITEM_DESC_S is Some
    &&& p.SALE_PRICE_NOTAX_STORE_02 is Some
    &&& p.QTY_STORE_02 is Some
}

/// The texts of a product's report row, after its image: its id, its short
/// description, and its price before tax and quantity in store 2.
pub fn report_row(p: &Product) -> (r: Vec<String>)
    requires
        reportable(*p),
    ensures
        report_texts(r@) == seq![
            p.ITEM_ID->Some_0@,
            p.ITEM_DESC_S->Some_0@,
            p.SALE_PRICE_NOTAX_STORE_02->Some_0@,
            p.QTY_STORE_02->Some_0@,
        ],
{
    let mut r: Vec<String> = Vec::new();
    r.push(clone_field(&p.ITEM_ID));
    r.push(clone_field(&p.ITEM_DESC_S));
    r.push(clone_field(&p.SALE_PRICE_NOTAX_STORE_02));
    r.push(clone_field(&p.QTY_STORE_02));
    assert(report_texts(r@) =~= seq![
        p.ITEM_ID->Some_0@,
        p.ITEM_DESC_S->Some_0@,
        p.SALE_PRICE_NOTAX_STORE_02->Some_0@,
        p.QTY_STORE_02->Some_0@,
    ]);
    r
}

fn clone_field(f: &Option<String>) -> (r: String)
    requires
        f is Some,
    ensures
        r@ == f->Some_0@,
{
    match f {
        Some(s) => s.clone(),
        None => String::new(),
    }
}

} // verus!

verus! {

/// Whether a product has the fields that its report row shows.
pub fn reportable_product(p: &Product) -> (r: bool)
    ensures
        r == reportable(*p),
{
    p.ITEM_ID.is_some() && p.ITEM_DESC_S.is_some() && p.SALE_PRICE_NOTAX_STORE_02.is_some()
        && p.QTY_STORE_02.is_some()
}

} // verus!

verus! {

/// The body of a product-data search: reference, barcode and id, each
/// optional.
#[allow(non_snake_case)]
#[derive(Debug)]
pub struct ProductDataParams {
    pub pRef: Option<String>,
    pub pBarcode: Option<String>,
    pub pId: Option<String>,
}

/// A search value, or `%`, which matches anything, when it is not given.
pub open spec fn value_or_any(v: Option<String>) -> Seq<char> {
    match v {
        Some(s) => s@,
        None => "%"@,
    }
}

/// The SQL text of a product-data search.
pub open spec fn product_data_sql() -> Seq<char> {
    "SELECT * FROM ODBC_JHC.JHC_INVDATA WHERE FOREIGN_ITEM_CODE LIKE :ref AND ITEM_MAIN_BARCODE LIKE :barcode AND ITEM_ID LIKE :id"@
}

fn value_or_any_text(v: &Option<String>) -> (r: String)
    ensures
        r@ == value_or_any(*v),
{
    match v {
        Some(s) => s.clone(),
        None => String::from_str("%"),
    }
}

/// The query of a product-data search: `None` when no field is given (the
/// search then finds nothing), else the fixed SQL text with the reference,
/// barcode and id bound in that order, each `%` when not given.
pub fn product_data_query(p: &ProductDataParams) -> (r: Option<ProductQuery>)
    ensures
        r is None <==> (p.pRef is None && p.pBarcode is None && p.pId is None),
        r matches Some(q) ==> q.sql@ == product_data_sql() && binds_view(q.binds@) == seq![
            ("ref"@, value_or_any(p.pRef)),
            ("barcode"@, value_or_any(p.pBarcode)),
            ("id"@, value_or_any(p.pId)),
        ],
{
    if p.pRef.is_none() && p.pBarcode.is_none() && p.pId.is_none() {
        return None;
    }
    let mut binds: Vec<(String, String)> = Vec::new();
    binds.push((String::from_str("ref"), value_or_any_text(&p.pRef)));
    binds.push((String::from_str("barcode"), value_or_any_text(&p.pBarcode)));
    binds.push((String::from_str("id"), value_or_any_text(&p.pId)));
    let sql = String::from_str(
        "SELECT * FROM ODBC_JHC.JHC_INVDATA WHERE FOREIGN_ITEM_CODE LIKE :ref AND ITEM_MAIN_BARCODE LIKE :barcode AND ITEM_ID LIKE :id",
    );
    let q = ProductQuery { sql, binds };
    assert(binds_view(q.binds@) =~= seq![
        ("ref"@, value_or_any(p.pRef)),
        ("barcode"@, value_or_any(p.pBarcode)),
        ("id"@, value_or_any(p.pId)),
    ]);
    Some(q)
}

} // verus!

verus! {

/// A store the user may see keeps every figure it has for that store, with
/// or without the cost right: quantity, price and both discounts come through
/// as they were read.
pub proof fn lemma_visible_store_figures_are_kept(p: Product, raw: Product, ids: Seq<String>, show_cost: bool, id: Seq<char>)
    requires
        restricted(p, raw, ids, show_cost),
        store_visible(ids, id),
    ensures
        store_figures(p, id) == store_figures(raw, id),
{
    if id == "01"@ {
        assert(store_figures(p, id) =~= store_figures(raw, id));
    } else if id == "02"@ {
        assert(store_figures(p, id) =~= store_figures(raw, id));
    } else if id == "05"@ {
        assert(store_figures(p, id) =~= store_figures(raw, id));
    } else if id == "06"@ {
        assert(store_figures(p, id) =~= store_figures(raw, id));
    } else if id == "07"@ {
        assert(store_figures(p, id) =~= store_figures(raw, id));
    } else if id == "08"@ {
        assert(store_figures(p, id) =~= store_figures(raw, id));
    } else if id == "09"@ {
        assert(store_figures(p, id) =~= store_figures(raw, id));
    } else if id == "10"@ {
        assert(store_figures(p, id) =~= store_figures(raw, id));
    } else if id == "11"@ {
        assert(store_figures(p, id) =~= store_figures(raw, id));
    } else if id == "12"@ {
        assert(store_figures(p, id) =~= store_figures(raw, id));
    } else if id == "19"@ {
        assert(store_figures(p, id) =~= store_figures(raw, id));
    } else if id == "21"@ {
        assert(store_figures(p, id) =~= store_figures(raw, id));
    } else if id == "23"@ {
        assert(store_figures(p, id) =~= store_figures(raw, id));
    } else if id == "31"@ {
        assert(store_figures(p, id) =~= store_figures(raw, id));
    } else if id == "32"@ {
        assert(store_figures(p, id) =~= store_figures(raw, id));
    } else if id == "33"@ {
        assert(store_figures(p, id) =~= store_figures(raw, id));
    } else if id == "34"@ {
        assert(store_figures(p, id) =~= store_figures(raw, id));
    } else if id == "35"@ {
        assert(store_figures(p, id) =~= store_figures(raw, id));
    } else {
        assert(store_figures(p, id) =~= store_figures(raw, id));
    }
}

/// The cost right decides the average cost and nothing else: two users who
/// may see the same stores, one with the cost right and one without, get the
/// same item but for its cost, which only the first sees; and the fields that
/// belong to no store come through as they were read for both.
pub proof fn lemma_cost_right_only_shows_cost(p: Product, q: Product, raw: Product, ids: Seq<String>)
    requires
        restricted(p, raw, ids, true),
        restricted(q, raw, ids, false),
    ensures
        p.T_AVE_COST == raw.T_AVE_COST,
        q.T_AVE_COST is None,
        p.ITEM_ID == q.ITEM_ID,
        p.IS_ACTIVE == q.IS_ACTIVE,
        p.CAN_BE_SOLD == q.CAN_BE_SOLD,
        p.ITEM_DESC == q.ITEM_DESC,
        p.ITEM_DESC_S == q.ITEM_DESC_S,
        p.FOREIGN_ITEM_CODE == q.FOREIGN_ITEM_CODE,
        p.ITEM_CAT == q.ITEM_CAT,
        p.ITEM_SUB_CAT == q.ITEM_SUB_CAT,
        p.SALE_UNIT == q.SALE_UNIT,
        p.UNIT_DESC == q.UNIT_DESC,
        p.PACKING == q.PACKING,
        p.CARD_OPEN_DATE == q.CARD_OPEN_DATE,
        p.HS_CODE == q.HS_CODE,
        p.COUNTRY == q.COUNTRY,
        p.COUNTRY_DESC == q.COUNTRY_DESC,
        p.SUPPLIER_ID == q.SUPPLIER_ID,
        p.SUPPLIER_DESC == q.SUPPLIER_DESC,
        p.ITEM_MAIN_BARCODE == q.ITEM_MAIN_BARCODE,
        p.NATURE_ID == q.NATURE_ID,
        p.NATURE_DESC == q.NATURE_DESC,
        p.TRADE_ID == q.TRADE_ID,
        p.TRADE_DESC == q.TRADE_DESC,
        p.QTY_STORE_01 == q.QTY_STORE_01,
        p.QTY_STORE_02 == q.QTY_STORE_02,
        p.QTY_STORE_05 == q.QTY_STORE_05,
        p.QTY_STORE_06 == q.QTY_STORE_06,
        p.QTY_STORE_07 == q.QTY_STORE_07,
        p.QTY_STORE_08 == q.QTY_STORE_08,
        p.QTY_STORE_09 == q.QTY_STORE_09,
        p.QTY_STORE_10 == q.QTY_STORE_10,
        p.QTY_STORE_11 == q.QTY_STORE_11,
        p.QTY_STORE_12 == q.QTY_STORE_12,
        p.QTY_STORE_19 == q.QTY_STORE_19,
        p.QTY_STORE_21 == q.QTY_STORE_21,
        p.QTY_STORE_23 == q.QTY_STORE_23,
        p.QTY_STORE_31 == q.QTY_STORE_31,
        p.QTY_STORE_32 == q.QTY_STORE_32,
        p.QTY_STORE_33 == q.QTY_STORE_33,
        p.QTY_STORE_34 == q.QTY_STORE_34,
        p.QTY_STORE_35 == q.QTY_STORE_35,
        p.SALE_PRICE_NOTAX_STORE_01 == q.SALE_PRICE_NOTAX_STORE_01,
        p.SALE_PRICE_NOTAX_STORE_02 == q.SALE_PRICE_NOTAX_STORE_02,
        p.SALE_PRICE_NOTAX_STORE_05 == q.SALE_PRICE_NOTAX_STORE_05,
        p.SALE_PRICE_NOTAX_STORE_06 == q.SALE_PRICE_NOTAX_STORE_06,
        p.SALE_PRICE_NOTAX_STORE_08 == q.SALE_PRICE_NOTAX_STORE_08,
        p.SALE_PRICE_NOTAX_STORE_09 == q.SALE_PRICE_NOTAX_STORE_09,
        p.SALE_PRICE_NOTAX_STORE_07 == q.SALE_PRICE_NOTAX_STORE_07,
        p.SALE_PRICE_NOTAX_STORE_31 == q.SALE_PRICE_NOTAX_STORE_31,
        p.SALE_PRICE_NOTAX_STORE_32 == q.SALE_PRICE_NOTAX_STORE_32,
        p.SALE_PRICE_NOTAX_STORE_33 == q.SALE_PRICE_NOTAX_STORE_33,
        p.SALE_PRICE_NOTAX_STORE_34 == q.SALE_PRICE_NOTAX_STORE_34,
        p.SALE_PRICE_NOTAX_STORE_35 == q.SALE_PRICE_NOTAX_STORE_35,
        p.FIRST_DISC_PER_STORE_01 == q.FIRST_DISC_PER_STORE_01,
        p.FIRST_DISC_PER_STORE_02 == q.FIRST_DISC_PER_STORE_02,
        p.FIRST_DISC_PER_STORE_05 == q.FIRST_DISC_PER_STORE_05,
        p.FIRST_DISC_PER_STORE_06 == q.FIRST_DISC_PER_STORE_06,
        p.FIRST_DISC_PER_STORE_07 == q.FIRST_DISC_PER_STORE_07,
        p.FIRST_DISC_PER_STORE_08 == q.FIRST_DISC_PER_STORE_08,
        p.FIRST_DISC_PER_STORE_09 == q.FIRST_DISC_PER_STORE_09,
        p.FIRST_DISC_PER_STORE_31 == q.FIRST_DISC_PER_STORE_31,
        p.FIRST_DISC_PER_STORE_32 == q.FIRST_DISC_PER_STORE_32,
        p.FIRST_DISC_PER_STORE_33 == q.FIRST_DISC_PER_STORE_33,
        p.FIRST_DISC_PER_STORE_34 == q.FIRST_DISC_PER_STORE_34,
        p.FIRST_DISC_PER_STORE_35 == q.FIRST_DISC_PER_STORE_35,
        p.SECOND_DISC_PER_STORE_01 == q.SECOND_DISC_PER_STORE_01,
        p.SECOND_DISC_PER_STORE_02 == q.SECOND_DISC_PER_STORE_02,
        p.SECOND_DISC_PER_STORE_05 == q.SECOND_DISC_PER_STORE_05,
        p.SECOND_DISC_PER_STORE_06 == q.SECOND_DISC_PER_STORE_06,
        p.SECOND_DISC_PER_STORE_07 == q.SECOND_DISC_PER_STORE_07,
        p.SECOND_DISC_PER_STORE_08 == q.SECOND_DISC_PER_STORE_08,
        p.SECOND_DISC_PER_STORE_09 == q.SECOND_DISC_PER_STORE_09,
        p.SECOND_DISC_PER_STORE_31 == q.SECOND_DISC_PER_STORE_31,
        p.SECOND_DISC_PER_STORE_32 == q.SECOND_DISC_PER_STORE_32,
        p.SECOND_DISC_PER_STORE_33 == q.SECOND_DISC_PER_STORE_33,
        p.SECOND_DISC_PER_STORE_34 == q.SECOND_DISC_PER_STORE_34,
        p.SECOND_DISC_PER_STORE_35 == q.SECOND_DISC_PER_STORE_35,
        p.ITEM_ID == raw.ITEM_ID,
        p.IS_ACTIVE == raw.IS_ACTIVE,
        p.CAN_BE_SOLD == raw.CAN_BE_SOLD,
        p.ITEM_DESC == raw.ITEM_DESC,
        p.ITEM_DESC_S == raw.ITEM_DESC_S,
        p.FOREIGN_ITEM_CODE == raw.FOREIGN_ITEM_CODE,
        p.ITEM_CAT == raw.ITEM_CAT,
        p.ITEM_SUB_CAT == raw.ITEM_SUB_CAT,
        p.SALE_UNIT == raw.SALE_UNIT,
        p.UNIT_DESC == raw.UNIT_DESC,
        p.PACKING == raw.PACKING,
        p.CARD_OPEN_DATE == raw.CARD_OPEN_DATE,
        p.HS_CODE == raw.HS_CODE,
        p.COUNTRY == raw.COUNTRY,
        p.COUNTRY_DESC == raw.COUNTRY_DESC,
        p.SUPPLIER_ID == raw.SUPPLIER_ID,
        p.SUPPLIER_DESC == raw.SUPPLIER_DESC,
        p.ITEM_MAIN_BARCODE == raw.ITEM_MAIN_BARCODE,
        p.NATURE_ID == raw.NATURE_ID,
        p.NATURE_DESC == raw.NATURE_DESC,
        p.TRADE_ID == raw.TRADE_ID,
        p.TRADE_DESC == raw.TRADE_DESC,
{
}

} // verus!
