use db_enum_translator::derives::{
    copy_derives, ensure_serde_derives, ensure_sqlx_type_derives, handle_derives, has_derive,
    resolve_derives,
};

fn names(list: &[&str]) -> Vec<String> {
    list.iter().map(|name| name.to_string()).collect()
}

#[test]
fn resolve_derives_defaults_without_serialization() {
    assert_eq!(resolve_derives(&names(&[]), false), names(&["DbType"]));
}

#[test]
fn resolve_derives_defaults_with_serialization() {
    assert_eq!(
        resolve_derives(&names(&[]), true),
        names(&["Serialize", "Deserialize", "DbType"])
    );
}

#[test]
fn resolve_derives_appends_missing_serialization_derives() {
    assert_eq!(
        resolve_derives(&names(&["Copy", "Clone"]), true),
        names(&["Copy", "Clone", "Serialize", "Deserialize"])
    );
}

#[test]
fn resolve_derives_does_not_repeat_serialize() {
    assert_eq!(
        resolve_derives(&names(&["Copy", "Serialize"]), true),
        names(&["Copy", "Serialize", "Deserialize"])
    );
}

#[test]
fn resolve_derives_does_not_repeat_deserialize() {
    assert_eq!(
        resolve_derives(&names(&["Deserialize", "Copy"]), true),
        names(&["Deserialize", "Copy", "Serialize"])
    );
}

#[test]
fn resolve_derives_adds_nothing_when_both_are_requested() {
    assert_eq!(
        resolve_derives(&names(&["Deserialize", "Serialize"]), true),
        names(&["Deserialize", "Serialize"])
    );
}

#[test]
fn resolve_derives_keeps_a_request_verbatim_without_serialization() {
    assert_eq!(
        resolve_derives(&names(&["Debug", "Clone"]), false),
        names(&["Debug", "Clone"])
    );
}

#[test]
fn resolve_derives_never_adds_db_type_to_a_request() {
    let with_serde = resolve_derives(&names(&["Copy"]), true);
    let without_serde = resolve_derives(&names(&["Copy"]), false);
    assert!(!with_serde.contains(&"DbType".to_string()));
    assert!(!without_serde.contains(&"DbType".to_string()));
}

#[test]
fn resolve_derives_keeps_the_order_of_the_request() {
    let requested = names(&["Zeta", "Alpha", "Deserialize", "Mid"]);
    let resolved = resolve_derives(&requested, true);
    assert_eq!(&resolved[..requested.len()], &requested[..]);
    assert_eq!(&resolved[requested.len()..], &names(&["Serialize"])[..]);
}

#[test]
fn resolve_derives_of_a_request_without_duplicates_has_none() {
    let resolved = resolve_derives(&names(&["Serialize", "Hash", "Eq"]), true);
    for (i, first) in resolved.iter().enumerate() {
        for second in &resolved[i + 1..] {
            assert_ne!(first, second);
        }
    }
    assert_eq!(resolved, names(&["Serialize", "Hash", "Eq", "Deserialize"]));
}

#[test]
fn resolve_derives_leaves_duplicates_of_the_request_alone() {
    assert_eq!(
        resolve_derives(&names(&["Clone", "Clone"]), false),
        names(&["Clone", "Clone"])
    );
}

#[test]
fn resolve_derives_compares_names_exactly() {
    assert_eq!(
        resolve_derives(&names(&["serialize", "serde::Deserialize"]), true),
        names(&["serialize", "serde::Deserialize", "Serialize", "Deserialize"])
    );
}

#[test]
fn ensure_serde_derives_on_an_empty_list() {
    assert_eq!(
        ensure_serde_derives(&names(&[])),
        names(&["Serialize", "Deserialize"])
    );
}

#[test]
fn ensure_serde_derives_appends_only_what_is_missing() {
    assert_eq!(
        ensure_serde_derives(&names(&["Serialize", "Copy"])),
        names(&["Serialize", "Copy", "Deserialize"])
    );
    assert_eq!(
        ensure_serde_derives(&names(&["Copy", "Deserialize"])),
        names(&["Copy", "Deserialize", "Serialize"])
    );
    assert_eq!(
        ensure_serde_derives(&names(&["Serialize", "Deserialize"])),
        names(&["Serialize", "Deserialize"])
    );
}

#[test]
fn ensure_sqlx_type_derives_appends_db_type_once() {
    assert_eq!(ensure_sqlx_type_derives(&names(&[])), names(&["DbType"]));
    assert_eq!(
        ensure_sqlx_type_derives(&names(&["Copy"])),
        names(&["Copy", "DbType"])
    );
    assert_eq!(
        ensure_sqlx_type_derives(&names(&["DbType", "Copy"])),
        names(&["DbType", "Copy"])
    );
}

#[test]
fn handle_derives_gives_the_defaults_for_an_empty_list() {
    assert_eq!(handle_derives(&names(&[]), false), names(&["DbType"]));
    assert_eq!(
        handle_derives(&names(&[]), true),
        names(&["Serialize", "Deserialize", "DbType"])
    );
}

#[test]
fn handle_derives_agrees_with_resolve_derives() {
    let requests = [
        names(&[]),
        names(&["Copy"]),
        names(&["Copy", "Serialize"]),
        names(&["Deserialize", "DbType", "Clone"]),
        names(&["Clone", "Clone"]),
    ];
    for requested in &requests {
        for serde in [false, true] {
            assert_eq!(
                handle_derives(requested, serde),
                resolve_derives(requested, serde)
            );
        }
    }
}

#[test]
fn handle_derives_only_extends_a_request_by_serialization() {
    assert_eq!(handle_derives(&names(&["Copy"]), false), names(&["Copy"]));
    assert_eq!(
        handle_derives(&names(&["Copy", "Deserialize"]), true),
        names(&["Copy", "Deserialize", "Serialize"])
    );
}

#[test]
fn has_derive_finds_exact_names_only() {
    let derives = names(&["Copy", "Serialize"]);
    assert!(has_derive(&derives, "Serialize"));
    assert!(has_derive(&derives, "Copy"));
    assert!(!has_derive(&derives, "serialize"));
    assert!(!has_derive(&derives, "Serial"));
    assert!(!has_derive(&names(&[]), "Copy"));
}

#[test]
fn copy_derives_copies_every_name_in_order() {
    let derives = names(&["B", "A", "B"]);
    assert_eq!(copy_derives(&derives), derives);
    assert_eq!(copy_derives(&names(&[])), names(&[]));
}
