//! Saved generation presets: their default kind, the names they may carry, and when a
//! name clashes with another preset.

use vstd::prelude::*;
use crate::error::ServiceError;
use crate::text::{str_eq, trim, trim_str};

verus! {

/// The kind a preset gets when the request names none.
pub fn default_kind() -> (r: String)
    ensures
        r@ == "image"@,
{
    String::from_str("image")
}

/// The name a preset is saved under: the requested name trimmed; a blank name is refused.
pub fn preset_name(name: &str) -> (r: Result<String, ServiceError>)
    ensures
        if trim(name@).len() == 0 {
            r matches Err(ServiceError::PresetNameRequired)
        } else {
            r matches Ok(n) && n@ == trim(name@)
        },
{
    let t = trim_str(name);
    if t.unicode_len() == 0 {
        Err(ServiceError::PresetNameRequired)
    } else {
        Ok(String::from_str(t))
    }
}

/// The name an updated preset is saved under: the new name if one was sent, otherwise
/// the existing one, trimmed; a blank result is refused.
pub fn updated_preset_name(requested: Option<String>, existing: String) -> (r: Result<String, ServiceError>)
    ensures
        ({
            let chosen = match requested {
                Some(n) => n@,
                None => existing@,
            };
            if trim(chosen).len() == 0 {
                r matches Err(ServiceError::PresetNameRequired)
            } else {
                r matches Ok(n) && n@ == trim(chosen)
            }
        }),
{
    let chosen = match requested {
        Some(n) => n,
        None => existing,
    };
    preset_name(chosen.as_str())
}

/// Whether a preset found under the same kind and name blocks saving: it does unless it
/// is the preset being updated.
pub open spec fn spec_name_taken(found_id: Option<Seq<char>>, exclude_id: Option<Seq<char>>) -> bool {
    match (found_id, exclude_id) {
        (Some(found), Some(exclude)) => found != exclude,
        (Some(_), None) => true,
        (None, _) => false,
    }
}

/// Decides a name clash from the id of the preset already holding the name (if any)
/// and the id of the preset being updated (if any).
pub fn name_taken(found_id: Option<&str>, exclude_id: Option<&str>) -> (r: bool)
    ensures
        r == spec_name_taken(
            match found_id {
                Some(f) => Some(f@),
                None => None,
            },
            match exclude_id {
                Some(e) => Some(e@),
                None => None,
            },
        ),
{
    match (found_id, exclude_id) {
        (Some(found), Some(exclude)) => !str_eq(found, exclude),
        (Some(_), None) => true,
        (None, _) => false,
    }
}

/// No two stored presets (id, kind, name) share a kind and a name.
pub open spec fn names_unique(table: Seq<(Seq<char>, Seq<char>, Seq<char>)>) -> bool {
    forall|i: int, j: int|
        0 <= i < table.len() && 0 <= j < table.len() && i != j ==> !(#[trigger] table[i].1 == #[trigger] table[j].1
            && table[i].2 == table[j].2)
}

/// No two stored presets share an id.
pub open spec fn ids_unique(table: Seq<(Seq<char>, Seq<char>, Seq<char>)>) -> bool {
    forall|i: int, j: int| 0 <= i < table.len() && 0 <= j < table.len() && i != j ==> #[trigger] table[i].0 != #[trigger] table[j].0
}

/// Whether some stored preset has this kind and name.
pub open spec fn holds_name(table: Seq<(Seq<char>, Seq<char>, Seq<char>)>, kind: Seq<char>, name: Seq<char>, i: int) -> bool {
    0 <= i < table.len() && table[i].1 == kind && table[i].2 == name
}

/// The id that the lookup of a kind and name finds: that of a preset holding them.
pub open spec fn name_holder(table: Seq<(Seq<char>, Seq<char>, Seq<char>)>, kind: Seq<char>, name: Seq<char>) -> Option<Seq<char>> {
    if exists|i: int| holds_name(table, kind, name, i) {
        Some(table[choose|i: int| holds_name(table, kind, name, i)].0)
    } else {
        None
    }
}

/// Creating a preset keeps names unique: where the lookup of its kind and name finds no
/// holder, the table with the new preset added still has no two presets of one kind
/// under one name.
pub proof fn lemma_create_keeps_names_unique(
    table: Seq<(Seq<char>, Seq<char>, Seq<char>)>,
    id: Seq<char>,
    kind: Seq<char>,
    name: Seq<char>,
)
    requires
        names_unique(table),
        !spec_name_taken(name_holder(table, kind, name), None),
    ensures
        names_unique(table.push((id, kind, name))),
{
    let t = table.push((id, kind, name));
    assert forall|i: int, j: int| 0 <= i < t.len() && 0 <= j < t.len() && i != j implies !(#[trigger] t[i].1 == #[trigger] t[j].1
        && t[i].2 == t[j].2) by {
        if i == table.len() && t[i].1 == t[j].1 && t[i].2 == t[j].2 {
            assert(holds_name(table, kind, name, j));
        } else if j == table.len() && t[i].1 == t[j].1 && t[i].2 == t[j].2 {
            assert(holds_name(table, kind, name, i));
        } else if i < table.len() && j < table.len() {
            assert(t[i] == table[i] && t[j] == table[j]);
        }
    }
}

/// Renaming a preset keeps names unique: where the lookup of its kind and new name finds
/// no holder but the preset itself, the table after the rename still has no two presets
/// of one kind under one name.
pub proof fn lemma_rename_keeps_names_unique(
    table: Seq<(Seq<char>, Seq<char>, Seq<char>)>,
    x: int,
    name: Seq<char>,
)
    requires
        names_unique(table),
        ids_unique(table),
        0 <= x < table.len(),
        !spec_name_taken(name_holder(table, table[x].1, name), Some(table[x].0)),
    ensures
        names_unique(table.update(x, (table[x].0, table[x].1, name))),
{
    let kind = table[x].1;
    let t = table.update(x, (table[x].0, kind, name));
    assert forall|i: int, j: int| 0 <= i < t.len() && 0 <= j < t.len() && i != j implies !(#[trigger] t[i].1 == #[trigger] t[j].1
        && t[i].2 == t[j].2) by {
        if (i == x || j == x) && t[i].1 == t[j].1 && t[i].2 == t[j].2 {
            let other = if i == x { j } else { i };
            assert(t[other] == table[other]);
            assert(holds_name(table, kind, name, other));
            let c = choose|c: int| holds_name(table, kind, name, c);
            assert(holds_name(table, kind, name, c));
            if c != x {
                assert(table[c].0 != table[x].0);
            } else {
                assert(table[other].1 == table[x].1 && table[other].2 == table[x].2);
            }
        } else if i != x && j != x {
            assert(t[i] == table[i] && t[j] == table[j]);
        }
    }
}

} // verus!
