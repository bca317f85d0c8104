//! Derivations, and how they are read from the JSON that `nix build` prints.

use crate::json::{
    item_views, lemma_array_view, lemma_object_view, member_views, parse, parsed_json, Json,
    JsonView,
};
use crate::Error;
use vstd::hash_map::StringHashMap;
use vstd::prelude::*;

verus! {

/// Represents a nix build output derivation
pub struct Derivation {
    /// Derivation path
    pub drv_path: String,
    /// List of outputs for this derivation
    ///
    /// Example outputs: `out`, `dev`
    pub outputs: StringHashMap<String>,
}

/// Mathematical model of a [`Derivation`].
pub struct DerivationView {
    pub drv_path: Seq<char>,
    /// From the name of an output to its path.
    pub outputs: Map<Seq<char>, Seq<char>>,
}

/// The paths of a map of outputs, as character sequences.
pub open spec fn path_views(outputs: Map<Seq<char>, String>) -> Map<Seq<char>, Seq<char>> {
    outputs.map_values(|path: String| path@)
}

impl View for Derivation {
    type V = DerivationView;

    open spec fn view(&self) -> DerivationView {
        DerivationView { drv_path: self.drv_path@, outputs: path_views(self.outputs@) }
    }
}

/// The views of a sequence of derivations, in order.
pub open spec fn derivation_views(derivations: Seq<Derivation>) -> Seq<DerivationView> {
    Seq::new(derivations.len(), |i: int| derivations[i]@)
}

impl Derivation {
    /// The path of the default output, `out`, if the derivation has one.
    pub fn out(&self) -> (path: Option<&String>)
        ensures
            match path {
                Some(p) => self@.outputs.contains_key("out"@) && p@ == self@.outputs["out"@],
                None => !self@.outputs.contains_key("out"@),
            },
    {
        self.outputs.get("out")
    }
}

/// The value of the member called `name` in a list of members: that of the
/// last such member, if there is any.
pub open spec fn member(members: Seq<(Seq<char>, JsonView)>, name: Seq<char>) -> Option<JsonView>
    decreases members.len(),
{
    if members.len() == 0 {
        None
    } else if members.last().0 == name {
        Some(members.last().1)
    } else {
        member(members.drop_last(), name)
    }
}

/// The derivation path of a record: the string under `drv_path` or under
/// `drvPath`. A record that has both, or neither, or something other than a
/// string there, has none.
pub open spec fn drv_path_of(members: Seq<(Seq<char>, JsonView)>) -> Option<Seq<char>> {
    match (member(members, "drv_path"@), member(members, "drvPath"@)) {
        (Some(JsonView::Str(path)), None) => Some(path),
        (None, Some(JsonView::Str(path))) => Some(path),
        _ => None,
    }
}

/// The map from each member's name to its string, a later member replacing
/// an earlier one of the same name.
pub open spec fn path_map(members: Seq<(Seq<char>, JsonView)>) -> Map<Seq<char>, Seq<char>>
    decreases members.len(),
{
    if members.len() == 0 {
        Map::empty()
    } else {
        path_map(members.drop_last()).insert(members.last().0, members.last().1->Str_0)
    }
}

/// The outputs that an `outputs` object spells: its members as a map, if
/// every one of them is a string.
pub open spec fn outputs_of(members: Seq<(Seq<char>, JsonView)>) -> Option<
    Map<Seq<char>, Seq<char>>,
> {
    if forall|i: int| 0 <= i < members.len() ==> (#[trigger] members[i]).1 is Str {
        Some(path_map(members))
    } else {
        None
    }
}

/// The derivation that one element of the output spells: an object with a
/// derivation path and with an object of strings under `outputs`. Other
/// members are ignored.
pub open spec fn derivation_of(json: JsonView) -> Option<DerivationView> {
    match json {
        JsonView::Object(members) => match (drv_path_of(members), member(members, "outputs"@)) {
            (Some(drv_path), Some(JsonView::Object(outputs))) => match outputs_of(outputs) {
                Some(outputs) => Some(DerivationView { drv_path, outputs }),
                None => None,
            },
            _ => None,
        },
        _ => None,
    }
}

/// The derivations that a document spells: it is an array, every element
/// spells a derivation, and they come in the order of the array.
pub open spec fn derivations_of(json: JsonView) -> Option<Seq<DerivationView>> {
    match json {
        JsonView::Array(items) => if forall|i: int|
            0 <= i < items.len() ==> derivation_of(#[trigger] items[i]) is Some {
            Some(Seq::new(items.len(), |i: int| derivation_of(items[i])->Some_0))
        } else {
            None
        },
        _ => None,
    }
}

/// Looks a member up by name; the last one of that name counts.
pub fn find_member<'a>(members: &'a Vec<(String, Json)>, name: &str) -> (found: Option<&'a Json>)
    ensures
        match found {
            Some(json) => member(member_views(members@), name@) == Some(json@),
            None => member(member_views(members@), name@) is None,
        },
{
    let ghost views = member_views(members@);
    let key = name.to_owned();
    let mut found: Option<&'a Json> = None;
    let mut i: usize = 0;
    while i < members.len()
        invariant
            i <= members.len(),
            key@ == name@,
            views == member_views(members@),
            match found {
                Some(json) => member(views.take(i as int), name@) == Some(json@),
                None => member(views.take(i as int), name@) is None,
            },
        decreases members.len() - i,
    {
        proof {
            assert(views.take(i + 1).drop_last() =~= views.take(i as int));
            assert(views.take(i + 1).last() == views[i as int]);
        }
        if members[i].0 == key {
            found = Some(&members[i].1);
        }
        i += 1;
    }
    assert(views.take(i as int) =~= views);
    found
}

/// Reads the members of an `outputs` object into a map of paths.
pub fn decode_outputs(members: &Vec<(String, Json)>) -> (outputs: Option<StringHashMap<String>>)
    ensures
        match outputs {
            Some(map) => outputs_of(member_views(members@)) == Some(path_views(map@)),
            None => outputs_of(member_views(members@)) is None,
        },
{
    let ghost views = member_views(members@);
    let mut map: StringHashMap<String> = StringHashMap::new();
    assert(path_views(map@) =~= Map::empty());
    let mut i: usize = 0;
    while i < members.len()
        invariant
            i <= members.len(),
            views == member_views(members@),
            forall|j: int| 0 <= j < i ==> (#[trigger] views[j]).1 is Str,
            path_views(map@) == path_map(views.take(i as int)),
        decreases members.len() - i,
    {
        match &members[i].1 {
            Json::Str(path) => {
                let ghost before = map@;
                map.insert(members[i].0.clone(), path.clone());
                proof {
                    assert(views.take(i + 1).drop_last() =~= views.take(i as int));
                    assert(views.take(i + 1).last() == views[i as int]);
                    assert(views[i as int].1 == JsonView::Str(path@));
                    assert(path_views(map@) =~= path_views(before).insert(
                        members@[i as int].0@,
                        path@,
                    ));
                }
            },
            _ => {
                assert(!(views[i as int].1 is Str));
                return None;
            },
        }
        i += 1;
    }
    assert(views.take(i as int) =~= views);
    Some(map)
}

/// Reads one element of the output as a derivation.
pub fn decode_record(json: &Json) -> (derivation: Option<Derivation>)
    ensures
        match derivation {
            Some(d) => derivation_of(json@) == Some(d@),
            None => derivation_of(json@) is None,
        },
{
    let members = match json {
        Json::Object(members) => members,
        _ => { return None; },
    };
    proof {
        lemma_object_view(*members);
    }
    let drv_path = match (find_member(members, "drv_path"), find_member(members, "drvPath")) {
        (Some(Json::Str(path)), None) => path.clone(),
        (None, Some(Json::Str(path))) => path.clone(),
        _ => { return None; },
    };
    let outputs = match find_member(members, "outputs") {
        Some(Json::Object(outputs)) => outputs,
        _ => { return None; },
    };
    proof {
        lemma_object_view(*outputs);
    }
    match decode_outputs(outputs) {
        Some(outputs) => Some(Derivation { drv_path, outputs }),
        None => None,
    }
}

/// Reads a document as the list of derivations that `nix build --json`
/// prints. Either every element is read, or the whole document is refused
/// with [`Error::UnknownOutput`].
pub fn decode_json(json: &Json) -> (result: Result<Vec<Derivation>, Error>)
    ensures
        match result {
            Ok(derivations) => derivations_of(json@) == Some(derivation_views(derivations@)),
            Err(e) => e == Error::UnknownOutput && derivations_of(json@) is None,
        },
{
    let items = match json {
        Json::Array(items) => items,
        _ => { return Err(Error::UnknownOutput); },
    };
    proof {
        lemma_array_view(*items);
    }
    let ghost views = item_views(items@);
    let mut derivations: Vec<Derivation> = Vec::new();
    let mut i: usize = 0;
    while i < items.len()
        invariant
            i <= items.len(),
            json@ == JsonView::Array(views),
            views == item_views(items@),
            derivations@.len() == i,
            forall|j: int| 0 <= j < i ==> derivation_of(#[trigger] views[j]) == Some(derivations@[j]@),
        decreases items.len() - i,
    {
        match decode_record(&items[i]) {
            Some(derivation) => derivations.push(derivation),
            None => {
                assert(derivation_of(views[i as int]) is None);
                return Err(Error::UnknownOutput);
            },
        }
        i += 1;
    }
    assert(derivations_of(json@)->Some_0 =~= derivation_views(derivations@));
    Ok(derivations)
}

/// What the standard output of a successful `nix build --json` decodes to.
pub open spec fn decoded(bytes: Seq<u8>) -> Option<Seq<DerivationView>> {
    match parsed_json(bytes) {
        Some(json) => derivations_of(json),
        None => None,
    }
}

/// Decodes the standard output of `nix build --json`: a JSON array with one
/// object per derivation. Input that is empty, is not JSON, or is JSON of
/// another shape gives [`Error::UnknownOutput`] and no derivations at all.
pub fn decode(bytes: &[u8]) -> (result: Result<Vec<Derivation>, Error>)
    ensures
        match result {
            Ok(derivations) => decoded(bytes@) == Some(derivation_views(derivations@)),
            Err(e) => e == Error::UnknownOutput && decoded(bytes@) is None,
        },
        bytes@.len() == 0 ==> result is Err,
{
    match parse(bytes) {
        Some(json) => decode_json(&json),
        None => Err(Error::UnknownOutput),
    }
}

} // verus!
