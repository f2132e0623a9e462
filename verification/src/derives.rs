//! The derives of a generated enum.
//!
//! A derive list is a sequence of identifiers. Contracts speak of it as a
//! `Seq<Seq<char>>`: the deep view of a `Vec<String>` or of a `[String]`.

use vstd::prelude::*;

verus! {

/// The derive that makes an enum serializable.
pub open spec fn serialize_derive() -> Seq<char> {
    "Serialize"@
}

/// The derive that makes an enum deserializable.
pub open spec fn deserialize_derive() -> Seq<char> {
    "Deserialize"@
}

/// The derive that maps an enum to its database type.
pub open spec fn db_type_derive() -> Seq<char> {
    "DbType"@
}

/// The one-element list holding `name` where `derives` lacks it, the empty
/// list where `derives` already has it.
pub open spec fn missing(derives: Seq<Seq<char>>, name: Seq<char>) -> Seq<Seq<char>> {
    if derives.contains(name) {
        Seq::empty()
    } else {
        seq![name]
    }
}

/// `derives`, followed by the serialization derives it lacks: `Serialize`
/// before `Deserialize`.
pub open spec fn with_serde(derives: Seq<Seq<char>>) -> Seq<Seq<char>> {
    derives + missing(derives, serialize_derive()) + missing(derives, deserialize_derive())
}

/// `derives`, followed by the database type derive where it lacks it.
pub open spec fn with_db_type(derives: Seq<Seq<char>>) -> Seq<Seq<char>> {
    derives + missing(derives, db_type_derive())
}

/// The derives of an enum whose caller requested `requested` and asked, or
/// did not ask, for serialization.
///
/// An empty request stands for the defaults, which always hold the database
/// type derive. A request that names any derive is only ever extended, and
/// only by the serialization derives.
pub open spec fn resolved_derives(requested: Seq<Seq<char>>, want_serialization: bool) -> Seq<
    Seq<char>,
> {
    if requested.len() == 0 {
        if want_serialization {
            seq![serialize_derive(), deserialize_derive(), db_type_derive()]
        } else {
            seq![db_type_derive()]
        }
    } else if want_serialization {
        with_serde(requested)
    } else {
        requested
    }
}

/// Whether `name` is a serialization derive that `requested` does not hold.
pub open spec fn is_added_serde_derive(requested: Seq<Seq<char>>, name: Seq<char>) -> bool {
    &&& !requested.contains(name)
    &&& name == serialize_derive() || name == deserialize_derive()
}

/// The three built-in derive names differ from one another.
pub proof fn lemma_builtin_derives_distinct()
    ensures
        serialize_derive() != deserialize_derive(),
        serialize_derive() != db_type_derive(),
        deserialize_derive() != db_type_derive(),
{
    reveal_strlit("Serialize");
    reveal_strlit("Deserialize");
    reveal_strlit("DbType");
    assert(serialize_derive().len() == 9);
    assert(deserialize_derive().len() == 11);
    assert(db_type_derive().len() == 6);
}

/// Whether `name` occurs in `derives`, compared character by character.
pub fn has_derive(derives: &[String], name: &str) -> (found: bool)
    ensures
        found == derives.deep_view().contains(name@),
{
    let needle = String::from_str(name);
    let ghost names = derives.deep_view();
    let mut found = false;
    let mut i: usize = 0;
    while i < derives.len()
        invariant
            i <= derives.len(),
            needle@ == name@,
            names == derives.deep_view(),
            found == exists|j: int| 0 <= j < i && names[j] == name@,
        decreases derives.len() - i,
    {
        assert(names[i as int] == derives[i as int]@);
        if derives[i] == needle {
            found = true;
        }
        i += 1;
    }
    found
}

/// A copy of `derives`, element for element.
pub fn copy_derives(derives: &[String]) -> (copy: Vec<String>)
    ensures
        copy.deep_view() == derives.deep_view(),
{
    let mut copy: Vec<String> = Vec::new();
    let mut i: usize = 0;
    while i < derives.len()
        invariant
            i <= derives.len(),
            copy.len() == i,
            forall|j: int| 0 <= j < i ==> copy[j]@ == derives[j]@,
        decreases derives.len() - i,
    {
        copy.push(derives[i].clone());
        i += 1;
    }
    assert(copy.deep_view() =~= derives.deep_view());
    copy
}

/// Appends `name` to `derives`.
fn push_derive(derives: &mut Vec<String>, name: &str)
    ensures
        final(derives).deep_view() == old(derives).deep_view().push(name@),
{
    derives.push(String::from_str(name));
    assert(final(derives).deep_view() =~= old(derives).deep_view().push(name@));
}

/// Adds the serialization derives that `derives` lacks.
///
/// Every requested derive is kept in its place. `Serialize` and
/// `Deserialize` are appended, in that order, each only where the list does
/// not hold it yet.
pub fn ensure_serde_derives(derives: &[String]) -> (result: Vec<String>)
    ensures
        result.deep_view() == with_serde(derives.deep_view()),
{
    let has_serialize = has_derive(derives, "Serialize");
    let has_deserialize = has_derive(derives, "Deserialize");
    let mut result = copy_derives(derives);
    if !has_serialize {
        push_derive(&mut result, "Serialize");
    }
    if !has_deserialize {
        push_derive(&mut result, "Deserialize");
    }
    assert(result.deep_view() =~= with_serde(derives.deep_view()));
    result
}

/// Adds the database type derive where `derives` lacks it.
///
/// Every derive of the list is kept in its place, and `DbType` is appended
/// where the list does not hold it yet.
pub fn ensure_sqlx_type_derives(derives: &[String]) -> (result: Vec<String>)
    ensures
        result.deep_view() == with_db_type(derives.deep_view()),
{
    let has_db_type = has_derive(derives, "DbType");
    let mut result = copy_derives(derives);
    if !has_db_type {
        push_derive(&mut result, "DbType");
    }
    assert(result.deep_view() =~= with_db_type(derives.deep_view()));
    result
}

/// Resolves a derive list in two steps, and arrives where [`resolve_derives`]
/// does.
///
/// Where `ensure_serde` is set, the serialization derives that the list lacks
/// are appended. An empty list then receives the database type derive behind
/// them, so that its defaults read `Serialize`, `Deserialize`, `DbType`, or
/// `DbType` alone. A list that names any derive never receives the database
/// type derive.
pub fn handle_derives(derives: &[String], ensure_serde: bool) -> (result: Vec<String>)
    ensures
        result.deep_view() == resolved_derives(derives.deep_view(), ensure_serde),
{
    let mut result = if ensure_serde {
        ensure_serde_derives(derives)
    } else {
        copy_derives(derives)
    };
    if derives.len() == 0 {
        proof {
            lemma_defaults_are_extended_empty_list(ensure_serde);
        }
        result = ensure_sqlx_type_derives(result.as_slice());
    }
    result
}

/// Resolves the derives of a generated enum.
///
/// | `requested` | `want_serialization` | result |
/// |---|---|---|
/// | empty | yes | `Serialize`, `Deserialize`, `DbType` |
/// | empty | no | `DbType` |
/// | not empty | yes | `requested`, then the serialization derives it lacks |
/// | not empty | no | `requested` |
///
/// A request that names any derive keeps every one of them, in the order
/// given; what is added comes after them and was not among them.
pub fn resolve_derives(requested: &[String], want_serialization: bool) -> (result: Vec<String>)
    ensures
        result.deep_view() == resolved_derives(requested.deep_view(), want_serialization),
        requested.len() > 0 ==> requested.deep_view().is_prefix_of(result.deep_view()),
        requested.len() > 0 ==> forall|i: int|
            requested.len() <= i < result.len() ==> is_added_serde_derive(
                requested.deep_view(),
                #[trigger] result.deep_view()[i],
            ),
{
    proof {
        if requested.len() > 0 {
            lemma_resolved_derives_keep_order(requested.deep_view(), want_serialization);
        }
    }
    let empty = requested.len() == 0;
    if empty && want_serialization {
        let mut result: Vec<String> = Vec::new();
        push_derive(&mut result, "Serialize");
        push_derive(&mut result, "Deserialize");
        push_derive(&mut result, "DbType");
        assert(result.deep_view() =~= resolved_derives(requested.deep_view(), want_serialization));
        result
    } else if empty {
        let mut result: Vec<String> = Vec::new();
        push_derive(&mut result, "DbType");
        assert(result.deep_view() =~= resolved_derives(requested.deep_view(), want_serialization));
        result
    } else if want_serialization {
        ensure_serde_derives(requested)
    } else {
        copy_derives(requested)
    }
}

/// A request that names any derive is a prefix of what it resolves to, so the
/// order among the requested derives is kept; every derive behind that prefix
/// is a serialization derive that the request did not hold.
pub proof fn lemma_resolved_derives_keep_order(requested: Seq<Seq<char>>, want_serialization: bool)
    requires
        requested.len() > 0,
    ensures
        requested.is_prefix_of(resolved_derives(requested, want_serialization)),
        forall|i: int|
            requested.len() <= i < resolved_derives(requested, want_serialization).len()
                ==> is_added_serde_derive(
                requested,
                #[trigger] resolved_derives(requested, want_serialization)[i],
            ),
{
}

/// Where serialization is asked for, the resolved derives hold both
/// serialization derives.
pub proof fn lemma_resolved_derives_hold_serde(requested: Seq<Seq<char>>)
    ensures
        resolved_derives(requested, true).contains(serialize_derive()),
        resolved_derives(requested, true).contains(deserialize_derive()),
{
    let resolved = resolved_derives(requested, true);
    if requested.len() == 0 {
        assert(resolved[0] == serialize_derive());
        assert(resolved[1] == deserialize_derive());
    } else {
        lemma_with_serde_holds_both(requested);
    }
}

/// A list extended by the serialization derives holds both of them.
proof fn lemma_with_serde_holds_both(derives: Seq<Seq<char>>)
    ensures
        with_serde(derives).contains(serialize_derive()),
        with_serde(derives).contains(deserialize_derive()),
{
    let extended = with_serde(derives);
    let with_first = derives + missing(derives, serialize_derive());
    if derives.contains(serialize_derive()) {
        let i = choose|i: int| 0 <= i < derives.len() && derives[i] == serialize_derive();
        assert(extended[i] == serialize_derive());
    } else {
        assert(extended[derives.len() as int] == serialize_derive());
    }
    if derives.contains(deserialize_derive()) {
        let i = choose|i: int| 0 <= i < derives.len() && derives[i] == deserialize_derive();
        assert(extended[i] == deserialize_derive());
    } else {
        assert(extended[with_first.len() as int] == deserialize_derive());
    }
}

/// The defaults are the empty list, extended first by the serialization
/// derives where they are asked for and then by the database type derive.
proof fn lemma_defaults_are_extended_empty_list(want_serialization: bool)
    ensures
        resolved_derives(Seq::empty(), want_serialization) == with_db_type(
            if want_serialization {
                with_serde(Seq::empty())
            } else {
                Seq::empty()
            },
        ),
{
    lemma_builtin_derives_distinct();
    let none = Seq::<Seq<char>>::empty();
    if want_serialization {
        let serde = seq![serialize_derive(), deserialize_derive()];
        assert(with_serde(none) =~= serde);
        assert(with_db_type(serde) =~= resolved_derives(none, true));
    } else {
        assert(with_db_type(none) =~= resolved_derives(none, false));
    }
}

/// The defaults hold the database type derive, with or without
/// serialization.
pub proof fn lemma_defaults_hold_db_type(want_serialization: bool)
    ensures
        resolved_derives(Seq::empty(), want_serialization).contains(db_type_derive()),
{
    let defaults = resolved_derives(Seq::empty(), want_serialization);
    assert(defaults[defaults.len() - 1] == db_type_derive());
}

/// A request that names any derive gains the database type derive only by
/// naming it.
pub proof fn lemma_request_gains_no_db_type(requested: Seq<Seq<char>>, want_serialization: bool)
    requires
        requested.len() > 0,
    ensures
        resolved_derives(requested, want_serialization).contains(db_type_derive())
            <==> requested.contains(db_type_derive()),
{
    lemma_builtin_derives_distinct();
    let resolved = resolved_derives(requested, want_serialization);
    if requested.contains(db_type_derive()) {
        let i = choose|i: int| 0 <= i < requested.len() && requested[i] == db_type_derive();
        assert(resolved[i] == db_type_derive());
    }
    if resolved.contains(db_type_derive()) {
        let i = choose|i: int| 0 <= i < resolved.len() && resolved[i] == db_type_derive();
        if i < requested.len() {
            assert(requested[i] == db_type_derive());
        }
    }
}

/// A request without duplicates resolves to derives without duplicates.
pub proof fn lemma_resolved_derives_no_duplicates(
    requested: Seq<Seq<char>>,
    want_serialization: bool,
)
    requires
        requested.no_duplicates(),
    ensures
        resolved_derives(requested, want_serialization).no_duplicates(),
{
    lemma_builtin_derives_distinct();
}

} // verus!
