use jhapi::errors::APIError;
use jhapi::products::{product_data_query, ProductDataParams, 
    accessible_store_ids, build_product_query, has_store, is_pattern_value, keep, report_column_weights,
    report_header, report_row, reportable_product, restrict_product, search_needed, search_user, FetchParams, Product,
};
use jhapi::signing::User as TokenUser;
use jhapi::stores::{plan_store_update, Store, StoreAction, StoreListUpdateParams};

fn full_product() -> Product {
    Product {
        ITEM_ID: Some("item_id".to_string()),
        IS_ACTIVE: Some("is_active".to_string()),
        CAN_BE_SOLD: Some("can_be_sold".to_string()),
        ITEM_DESC: Some("item_desc".to_string()),
        ITEM_DESC_S: Some("item_desc_s".to_string()),
        FOREIGN_ITEM_CODE: Some("foreign_item_code".to_string()),
        ITEM_CAT: Some("item_cat".to_string()),
        ITEM_SUB_CAT: Some("item_sub_cat".to_string()),
        SALE_UNIT: Some("sale_unit".to_string()),
        UNIT_DESC: Some("unit_desc".to_string()),
        PACKING: Some("packing".to_string()),
        CARD_OPEN_DATE: Some("card_open_date".to_string()),
        HS_CODE: Some("hs_code".to_string()),
        COUNTRY: Some("country".to_string()),
        COUNTRY_DESC: Some("country_desc".to_string()),
        SUPPLIER_ID: Some("supplier_id".to_string()),
        SUPPLIER_DESC: Some("supplier_desc".to_string()),
        ITEM_MAIN_BARCODE: Some("item_main_barcode".to_string()),
        NATURE_ID: Some("nature_id".to_string()),
        NATURE_DESC: Some("nature_desc".to_string()),
        TRADE_ID: Some("trade_id".to_string()),
        TRADE_DESC: Some("trade_desc".to_string()),
        QTY_STORE_01: Some("qty_store_01".to_string()),
        QTY_STORE_02: Some("qty_store_02".to_string()),
        QTY_STORE_05: Some("qty_store_05".to_string()),
        QTY_STORE_06: Some("qty_store_06".to_string()),
        QTY_STORE_07: Some("qty_store_07".to_string()),
        QTY_STORE_08: Some("qty_store_08".to_string()),
        QTY_STORE_09: Some("qty_store_09".to_string()),
        QTY_STORE_10: Some("qty_store_10".to_string()),
        QTY_STORE_11: Some("qty_store_11".to_string()),
        QTY_STORE_12: Some("qty_store_12".to_string()),
        QTY_STORE_19: Some("qty_store_19".to_string()),
        QTY_STORE_21: Some("qty_store_21".to_string()),
        QTY_STORE_23: Some("qty_store_23".to_string()),
        QTY_STORE_31: Some("qty_store_31".to_string()),
        QTY_STORE_32: Some("qty_store_32".to_string()),
        QTY_STORE_33: Some("qty_store_33".to_string()),
        QTY_STORE_34: Some("qty_store_34".to_string()),
        QTY_STORE_35: Some("qty_store_35".to_string()),
        SALE_PRICE_NOTAX_STORE_01: Some("sale_price_notax_store_01".to_string()),
        SALE_PRICE_NOTAX_STORE_02: Some("sale_price_notax_store_02".to_string()),
        SALE_PRICE_NOTAX_STORE_05: Some("sale_price_notax_store_05".to_string()),
        SALE_PRICE_NOTAX_STORE_06: Some("sale_price_notax_store_06".to_string()),
        SALE_PRICE_NOTAX_STORE_08: Some("sale_price_notax_store_08".to_string()),
        SALE_PRICE_NOTAX_STORE_09: Some("sale_price_notax_store_09".to_string()),
        SALE_PRICE_NOTAX_STORE_07: Some("sale_price_notax_store_07".to_string()),
        SALE_PRICE_NOTAX_STORE_31: Some("sale_price_notax_store_31".to_string()),
        SALE_PRICE_NOTAX_STORE_32: Some("sale_price_notax_store_32".to_string()),
        SALE_PRICE_NOTAX_STORE_33: Some("sale_price_notax_store_33".to_string()),
        SALE_PRICE_NOTAX_STORE_34: Some("sale_price_notax_store_34".to_string()),
        SALE_PRICE_NOTAX_STORE_35: Some("sale_price_notax_store_35".to_string()),
        FIRST_DISC_PER_STORE_01: Some("first_disc_per_store_01".to_string()),
        FIRST_DISC_PER_STORE_02: Some("first_disc_per_store_02".to_string()),
        FIRST_DISC_PER_STORE_05: Some("first_disc_per_store_05".to_string()),
        FIRST_DISC_PER_STORE_06: Some("first_disc_per_store_06".to_string()),
        FIRST_DISC_PER_STORE_07: Some("first_disc_per_store_07".to_string()),
        FIRST_DISC_PER_STORE_08: Some("first_disc_per_store_08".to_string()),
        FIRST_DISC_PER_STORE_09: Some("first_disc_per_store_09".to_string()),
        FIRST_DISC_PER_STORE_31: Some("first_disc_per_store_31".to_string()),
        FIRST_DISC_PER_STORE_32: Some("first_disc_per_store_32".to_string()),
        FIRST_DISC_PER_STORE_33: Some("first_disc_per_store_33".to_string()),
        FIRST_DISC_PER_STORE_34: Some("first_disc_per_store_34".to_string()),
        FIRST_DISC_PER_STORE_35: Some("first_disc_per_store_35".to_string()),
        SECOND_DISC_PER_STORE_01: Some("second_disc_per_store_01".to_string()),
        SECOND_DISC_PER_STORE_02: Some("second_disc_per_store_02".to_string()),
        SECOND_DISC_PER_STORE_05: Some("second_disc_per_store_05".to_string()),
        SECOND_DISC_PER_STORE_06: Some("second_disc_per_store_06".to_string()),
        SECOND_DISC_PER_STORE_07: Some("second_disc_per_store_07".to_string()),
        SECOND_DISC_PER_STORE_08: Some("second_disc_per_store_08".to_string()),
        SECOND_DISC_PER_STORE_09: Some("second_disc_per_store_09".to_string()),
        SECOND_DISC_PER_STORE_31: Some("second_disc_per_store_31".to_string()),
        SECOND_DISC_PER_STORE_32: Some("second_disc_per_store_32".to_string()),
        SECOND_DISC_PER_STORE_33: Some("second_disc_per_store_33".to_string()),
        SECOND_DISC_PER_STORE_34: Some("second_disc_per_store_34".to_string()),
        SECOND_DISC_PER_STORE_35: Some("second_disc_per_store_35".to_string()),
        T_AVE_COST: Some("t_ave_cost".to_string()),
    }
}

fn store(id: &str) -> Store {
    Store { STORE_ID: Some(id.to_string()), STORE_DESC: Some("desc".to_string()), STORE_DESC_S: None }
}

fn params(r: Option<&str>, b: Option<&str>, i: Option<&str>, d: Option<&str>) -> FetchParams {
    FetchParams {
        p_ref: r.map(|s| s.to_string()),
        p_barcode: b.map(|s| s.to_string()),
        p_id: i.map(|s| s.to_string()),
        p_desc: d.map(|s| s.to_string()),
    }
}

#[test]
fn store_update_with_list() {
    let p = StoreListUpdateParams { p_username: "sami".to_string(), p_stores: Some(vec![2, 5]), p_allstoresaccess: 0 };
    assert_eq!(
        plan_store_update(&p),
        vec![StoreAction::ClearAccess, StoreAction::GrantStore(2), StoreAction::GrantStore(5)]
    );
}

#[test]
fn store_update_all_access() {
    let p = StoreListUpdateParams { p_username: "sami".to_string(), p_stores: None, p_allstoresaccess: 1 };
    assert_eq!(plan_store_update(&p), vec![StoreAction::GrantAllStores]);
    let q = StoreListUpdateParams { p_username: "sami".to_string(), p_stores: Some(vec![7]), p_allstoresaccess: 1 };
    assert_eq!(plan_store_update(&q), vec![StoreAction::ClearAccess, StoreAction::GrantAllStores]);
}

#[test]
fn store_ids_and_visibility() {
    let ids = accessible_store_ids(&vec![store("01"), store("05")]);
    assert_eq!(ids, vec!["01", "05"]);
    assert!(has_store(&ids, "05"));
    assert!(!has_store(&ids, "02"));
    assert_eq!(keep(true, Some("x".to_string())).as_deref(), Some("x"));
    assert_eq!(keep(false, Some("x".to_string())), None);
}

#[test]
fn restriction_hides_other_stores_and_cost() {
    let ids = vec!["02".to_string()];
    let p = restrict_product(full_product(), &ids, false);
    assert_eq!(p.ITEM_ID.as_deref(), Some("item_id"));
    assert_eq!(p.QTY_STORE_02.as_deref(), Some("qty_store_02"));
    assert_eq!(p.SALE_PRICE_NOTAX_STORE_02.as_deref(), Some("sale_price_notax_store_02"));
    assert_eq!(p.QTY_STORE_01, None);
    assert_eq!(p.FIRST_DISC_PER_STORE_05, None);
    assert_eq!(p.T_AVE_COST, None);
    let q = restrict_product(full_product(), &ids, true);
    assert_eq!(q.T_AVE_COST.as_deref(), Some("t_ave_cost"));
    let r = restrict_product(full_product(), &vec![], true);
    assert_eq!(r.QTY_STORE_02, None);
    assert_eq!(r.SECOND_DISC_PER_STORE_35, None);
}

#[test]
fn patterns() {
    assert!(is_pattern_value("%abc"));
    assert!(is_pattern_value("abc%"));
    assert!(!is_pattern_value("a%c"));
    assert!(!is_pattern_value(""));
}

#[test]
fn query_with_all_fields() {
    let q = build_product_query(&params(Some("R1%"), Some("123"), Some("I9"), Some("%TEA%")));
    assert_eq!(
        q.sql,
        "SELECT * FROM ODBC_JHC.JHC_INVDATA WHERE FOREIGN_ITEM_CODE LIKE :FOREIGN_ITEM_CODE AND ITEM_ID = :ITEM_ID AND ITEM_DESC_S LIKE :ITEM_DESC_S AND BARCODE_LISTED LIKE '%' || :barcode || '%'"
    );
    let binds: Vec<(&str, &str)> = q.binds.iter().map(|(a, b)| (a.as_str(), b.as_str())).collect();
    assert_eq!(
        binds,
        vec![("FOREIGN_ITEM_CODE", "R1%"), ("ITEM_ID", "I9"), ("ITEM_DESC_S", "%TEA%"), ("barcode", "123")]
    );
}

#[test]
fn query_with_barcode_pattern() {
    let q = build_product_query(&params(None, Some("%99"), None, None));
    assert_eq!(q.sql, "SELECT * FROM ODBC_JHC.JHC_INVDATA WHERE BARCODE_LISTED LIKE '%' || :barcode");
    assert_eq!(q.binds.len(), 1);
}

#[test]
fn empty_search() {
    let p = params(None, None, None, None);
    assert!(p.is_none());
    assert!(!search_needed(&p));
    let q = build_product_query(&p);
    assert_eq!(q.sql, "SELECT * FROM ODBC_JHC.JHC_INVDATA WHERE");
    assert!(q.binds.is_empty());
    assert!(search_needed(&params(None, None, Some("x"), None)));
}

#[test]
fn search_user_from_token() {
    assert!(matches!(search_user(&None), Err(APIError::InvalidToken)));
    let mut u = TokenUser::new();
    u.USER_ID = Some("sami".to_string());
    assert_eq!(search_user(&Some(u)).unwrap(), "sami");
}

#[test]
fn report_layout() {
    assert_eq!(report_column_weights(), vec![2, 1, 4, 1, 1]);
    assert_eq!(report_header(), vec!["Image", "Product ID", "Product Desc", "Store 2 price", "Store 2 QTY"]);
    assert!(reportable_product(&full_product()));
    let mut partial = full_product();
    partial.QTY_STORE_02 = None;
    assert!(!reportable_product(&partial));
    assert_eq!(
        report_row(&full_product()),
        vec!["item_id", "item_desc_s", "sale_price_notax_store_02", "qty_store_02"]
    );
}

#[test]
fn product_data_queries() {
    let none = ProductDataParams { pRef: None, pBarcode: None, pId: None };
    assert!(product_data_query(&none).is_none());
    let q = product_data_query(&ProductDataParams { pRef: None, pBarcode: Some("123%".to_string()), pId: None }).unwrap();
    assert_eq!(
        q.sql,
        "SELECT * FROM ODBC_JHC.JHC_INVDATA WHERE FOREIGN_ITEM_CODE LIKE :ref AND ITEM_MAIN_BARCODE LIKE :barcode AND ITEM_ID LIKE :id"
    );
    let binds: Vec<(&str, &str)> = q.binds.iter().map(|(a, b)| (a.as_str(), b.as_str())).collect();
    assert_eq!(binds, vec![("ref", "%"), ("barcode", "123%"), ("id", "%")]);
}
