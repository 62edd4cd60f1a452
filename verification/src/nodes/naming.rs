//! How a node that creates a prim finds the prim's path: under the parent
//! that its inputs name, with the name that they give or a generated one.

use vstd::prelude::*;
use vstd::string::*;
use crate::engine::{put_prim, PrimView, USDEngine, USDPrim};
use crate::nodes::data::{
    add_entry, listing, lookup_text, named_text, text_value, DataView, NodeData,
};
use crate::text::{hex8, hex_fixed, hex_text, join_path, joined_path};

verus! {

/// The four fields of a universally unique identifier: the numbers that the
/// five groups of its text form write, the last two groups byte by byte.
#[derive(Debug, Clone, Copy)]
pub struct IdFields {
    pub d1: u32,
    pub d2: u16,
    pub d3: u16,
    pub d4: [u8; 8],
}

/// Draws a random version 4 identifier with `uuid::Uuid::new_v4` and takes
/// it apart with `Uuid::as_fields`. Nothing is claimed of the fields: they
/// are random.
#[verifier::external_body]
pub(crate) fn random_fields() -> (fields: IdFields) {
    let id = uuid::Uuid::new_v4();
    let (d1, d2, d3, d4) = id.as_fields();
    IdFields { d1, d2, d3, d4: *d4 }
}

/// The text form of an identifier: its fields in lower-case hexadecimal, in
/// groups of 8, 4, 4, 4 and 12 digits with hyphens between them.
pub open spec fn hyphenated_text(f: IdFields) -> Seq<char> {
    hex_text(f.d1 as nat, 8) + seq!['-'] + hex_text(f.d2 as nat, 4) + seq!['-'] + hex_text(
        f.d3 as nat,
        4,
    ) + seq!['-'] + hex_text(f.d4[0] as nat, 2) + hex_text(f.d4[1] as nat, 2) + seq!['-']
        + hex_text(f.d4[2] as nat, 2) + hex_text(f.d4[3] as nat, 2) + hex_text(f.d4[4] as nat, 2)
        + hex_text(f.d4[5] as nat, 2) + hex_text(f.d4[6] as nat, 2) + hex_text(f.d4[7] as nat, 2)
}

/// Writes an identifier in its text form.
pub fn hyphenated(f: &IdFields) -> (s: String)
    ensures
        s@ == hyphenated_text(*f),
{
    proof {
        reveal_strlit("-");
    }
    assert("-"@ =~= seq!['-']);
    let mut s = hex_fixed(f.d1 as u64, 8);
    s.append("-");
    s.append(hex_fixed(f.d2 as u64, 4).as_str());
    s.append("-");
    s.append(hex_fixed(f.d3 as u64, 4).as_str());
    s.append("-");
    s.append(hex_fixed(f.d4[0] as u64, 2).as_str());
    s.append(hex_fixed(f.d4[1] as u64, 2).as_str());
    s.append("-");
    s.append(hex_fixed(f.d4[2] as u64, 2).as_str());
    s.append(hex_fixed(f.d4[3] as u64, 2).as_str());
    s.append(hex_fixed(f.d4[4] as u64, 2).as_str());
    s.append(hex_fixed(f.d4[5] as u64, 2).as_str());
    s.append(hex_fixed(f.d4[6] as u64, 2).as_str());
    s.append(hex_fixed(f.d4[7] as u64, 2).as_str());
    s
}

/// A generated name: the prefix and the token as eight hexadecimal digits.
pub open spec fn generated_name(prefix: Seq<char>, token: u32) -> Seq<char> {
    prefix + hex_text(token as nat, 8)
}

/// The name a node gives its prim: the one it was given, if that is a text
/// and not empty, else a generated one.
pub open spec fn wanted_name(given: Option<NodeData>, prefix: Seq<char>, token: u32) -> Seq<char> {
    match given {
        Some(d) => match d.text() {
            Some(t) => if t.len() > 0 {
                t
            } else {
                generated_name(prefix, token)
            },
            None => generated_name(prefix, token),
        },
        None => generated_name(prefix, token),
    }
}

/// `given`, or `fallback` where nothing is given.
pub open spec fn text_or(given: Option<Seq<char>>, fallback: Seq<char>) -> Seq<char> {
    match given {
        Some(t) => t,
        None => fallback,
    }
}

/// The path of the new prim: `name` under the parent that the `Parent Path`
/// input names, or under `default_parent`.
pub open spec fn child_path(
    inputs: Seq<(String, NodeData)>,
    default_parent: Seq<char>,
    name: Seq<char>,
) -> Seq<char> {
    joined_path(text_or(named_text(inputs, "Parent Path"@), default_parent), name)
}

/// Chooses the name of the new prim.
pub fn choose_name(given: Option<&NodeData>, prefix: &str, token: u32) -> (name: String)
    ensures
        name@ == wanted_name(
            match given {
                Some(d) => Some(*d),
                None => None,
            },
            prefix@,
            token,
        ),
{
    let text: Option<&str> = match given {
        Some(d) => d.as_string(),
        None => None,
    };
    match text {
        Some(t) => {
            if !t.is_empty() {
                return t.to_owned();
            }
        },
        None => {},
    }
    let mut name = prefix.to_owned();
    name.append(hex8(token).as_str());
    name
}

/// Builds the path of the new prim.
pub fn choose_path(inputs: &Vec<(String, NodeData)>, default_parent: &str, name: &str) -> (path:
    String)
    ensures
        path@ == child_path(inputs@, default_parent@, name@),
{
    let parent: &str = match lookup_text(inputs, "Parent Path") {
        Some(t) => t,
        None => default_parent,
    };
    join_path(parent, name)
}

/// What a prim-creating node puts on its two outputs: the path of the prim
/// on both, or an empty path and no prim.
pub open spec fn answered(
    path_label: Seq<char>,
    prim_label: Seq<char>,
    path: Option<Seq<char>>,
) -> Seq<(Seq<char>, DataView)> {
    match path {
        Some(p) => seq![(path_label, DataView::String(p)), (prim_label, DataView::String(p))],
        None => seq![
            (path_label, DataView::String(Seq::<char>::empty())),
            (prim_label, DataView::Nothing),
        ],
    }
}

/// Fills the two outputs of a prim-creating node from what the repository
/// answered.
pub fn answer(path_label: &str, prim_label: &str, created: Option<&USDPrim>) -> (outputs: Vec<
    (String, NodeData),
>)
    ensures
        listing(outputs@) == answered(
            path_label@,
            prim_label@,
            match created {
                Some(prim) => Some(prim.path@),
                None => None,
            },
        ),
{
    let mut outputs: Vec<(String, NodeData)> = Vec::new();
    match created {
        Some(prim) => {
            add_entry(&mut outputs, path_label, text_value(prim.path.as_str()));
            add_entry(&mut outputs, prim_label, text_value(prim.path.as_str()));
        },
        None => {
            proof {
                reveal_strlit("");
            }
            add_entry(&mut outputs, path_label, text_value(""));
            add_entry(&mut outputs, prim_label, NodeData::Nothing);
            assert(""@ =~= Seq::<char>::empty());
        },
    }
    assert(listing(outputs@) =~= answered(
        path_label@,
        prim_label@,
        match created {
            Some(prim) => Some(prim.path@),
            None => None,
        },
    ));
    outputs
}

/// What running a prim-creating node comes to. Without a `Stage` input, or
/// with one that names no open stage, nothing is created and the outputs say
/// so. Else the prim of kind `prim_type` is kept at `path` and both outputs
/// carry the path.
pub open spec fn prim_node_ran(
    before: USDEngine,
    after: USDEngine,
    inputs: Seq<(String, NodeData)>,
    path: Seq<char>,
    prim_type: Seq<char>,
    path_label: Seq<char>,
    prim_label: Seq<char>,
    outputs: Seq<(String, NodeData)>,
) -> bool {
    &&& after.stages() == before.stages()
    &&& match named_text(inputs, "Stage"@) {
        Some(stage_id) => if before.has_stage(stage_id) {
            &&& after.prims() == put_prim(before.prims(), PrimView { path, prim_type, stage_id })
            &&& listing(outputs) == answered(path_label, prim_label, Some(path))
        } else {
            &&& after.prims() == before.prims()
            &&& listing(outputs) == answered(path_label, prim_label, None)
        },
        None => {
            &&& after.prims() == before.prims()
            &&& listing(outputs) == answered(path_label, prim_label, None)
        },
    }
}

} // verus!
