use db_enum_translator::model::{CustomEnum, CustomEnumVariant};
use db_enum_translator::naming::{
    join_type_name, name_type, name_type_from_singular, name_variant,
};

fn status_enum(table: Option<&str>) -> CustomEnum {
    CustomEnum {
        name: "status".to_string(),
        child_of_table: table.map(|name| name.to_string()),
        physical_type_name: None,
        variants: vec![CustomEnumVariant {
            name: "pending".to_string(),
        }],
        comments: None,
    }
}

#[test]
fn name_variant_capitalizes_a_word() {
    assert_eq!(name_variant("pending"), "Pending");
    assert_eq!(name_variant("SHIPPED"), "Shipped");
}

#[test]
fn name_variant_joins_the_words_of_a_snake_case_name() {
    assert_eq!(name_variant("in_progress"), "InProgress");
    assert_eq!(name_variant("out-for delivery"), "OutForDelivery");
}

#[test]
fn name_variant_splits_at_digits() {
    assert_eq!(name_variant("shipped2day"), "Shipped2Day");
}

#[test]
fn name_variant_of_nothing_is_nothing() {
    assert_eq!(name_variant(""), "");
}

#[test]
fn name_variant_twice_is_name_variant_once() {
    for schema_name in ["pending", "in_progress", "InProgress", "shipped2day", "SHIPPED", ""] {
        let once = name_variant(schema_name);
        assert_eq!(name_variant(&once), once);
    }
}

#[test]
fn name_variant_merges_one_letter_words_when_applied_again() {
    assert_eq!(name_variant("a_b"), "AB");
    assert_eq!(name_variant("AB"), "Ab");
}

#[test]
fn name_type_without_a_table_is_the_cased_enum_name() {
    assert_eq!(name_type(&status_enum(None)), Some("Status".to_string()));
}

#[test]
fn name_type_puts_the_singular_table_in_front() {
    assert_eq!(
        name_type(&status_enum(Some("orders"))),
        Some("OrderStatus".to_string())
    );
    assert_eq!(
        name_type(&status_enum(Some("invoices"))),
        Some("InvoiceStatus".to_string())
    );
}

#[test]
fn name_type_keeps_a_singular_table_name() {
    assert_eq!(
        name_type(&status_enum(Some("order"))),
        Some("OrderStatus".to_string())
    );
}

#[test]
fn name_type_tells_the_tables_of_one_enum_name_apart() {
    assert_ne!(
        name_type(&status_enum(Some("orders"))),
        name_type(&status_enum(Some("invoices")))
    );
}

#[test]
fn name_type_gives_no_name_for_an_empty_table() {
    assert_eq!(name_type(&status_enum(Some(""))), None);
}

#[test]
fn name_type_from_singular_concatenates_without_separator() {
    assert_eq!(
        name_type_from_singular("status", Some("order")),
        Some("OrderStatus".to_string())
    );
    assert_eq!(
        name_type_from_singular("user_role", Some("team_member")),
        Some("TeamMemberUserRole".to_string())
    );
}

#[test]
fn name_type_from_singular_without_a_table() {
    assert_eq!(
        name_type_from_singular("status", None),
        Some("Status".to_string())
    );
}

#[test]
fn name_type_from_singular_refuses_an_empty_singular() {
    assert_eq!(name_type_from_singular("status", Some("")), None);
}

#[test]
fn name_type_follows_the_rules_of_pluralization() {
    assert_eq!(
        name_type(&status_enum(Some("users"))),
        Some("UserStatus".to_string())
    );
    assert_eq!(
        name_type(&status_enum(Some("categories"))),
        Some("CategoryStatus".to_string())
    );
    assert_eq!(
        name_type(&status_enum(Some("people"))),
        Some("PersonStatus".to_string())
    );
    assert_eq!(
        name_type(&status_enum(Some("user_roles"))),
        Some("UserRoleStatus".to_string())
    );
}

#[test]
fn join_type_name_puts_the_table_first() {
    assert_eq!(join_type_name(Some("Order"), "Status"), "OrderStatus");
    assert_eq!(join_type_name(Some("order"), "status"), "orderstatus");
    assert_eq!(join_type_name(None, "Status"), "Status");
    assert_eq!(join_type_name(Some(""), "Status"), "Status");
}
