//! Scene repository: the stages that are open and the prims created on them.
//!
//! The repository is an explicitly owned value that is handed to whoever needs
//! it. Stages are kept under their identifier, prims under the key
//! `stage:path`; a second entry under a key that is taken replaces the first.
//! Entries keep the order in which their keys first came in.

use vstd::prelude::*;
use vstd::string::*;
use crate::text::{concat3, contains_text, decimal, decimal_text, has_prefix, occurs_at, occurs_in};

verus! {

/// Handle of a stage: where it lives and the identifier it is known by.
#[derive(Debug, Clone)]
pub struct USDStage {
    pub path: String,
    pub identifier: String,
}

/// Handle of a prim: its scene path, its kind and the stage it was created on.
#[derive(Debug, Clone)]
pub struct USDPrim {
    pub path: String,
    pub prim_type: String,
    pub stage_id: String,
}

/// A stage handle as text.
pub ghost struct StageView {
    pub path: Seq<char>,
    pub identifier: Seq<char>,
}

/// A prim handle as text.
pub ghost struct PrimView {
    pub path: Seq<char>,
    pub prim_type: Seq<char>,
    pub stage_id: Seq<char>,
}

impl View for USDStage {
    type V = StageView;

    open spec fn view(&self) -> StageView {
        StageView { path: self.path@, identifier: self.identifier@ }
    }
}

impl View for USDPrim {
    type V = PrimView;

    open spec fn view(&self) -> PrimView {
        PrimView { path: self.path@, prim_type: self.prim_type@, stage_id: self.stage_id@ }
    }
}

/// The key a prim is kept under: its stage, a colon, its path.
pub open spec fn prim_key(stage_id: Seq<char>, path: Seq<char>) -> Seq<char> {
    stage_id + seq![':'] + path
}

/// What every prim key of stage `stage_id` begins with.
pub open spec fn stage_prefix(stage_id: Seq<char>) -> Seq<char> {
    stage_id + seq![':']
}

/// Position of the first of `keys` that equals `key`, if there is one.
pub open spec fn position(keys: Seq<Seq<char>>, key: Seq<char>) -> Option<int> {
    if exists|i: int| 0 <= i < keys.len() && keys[i] == key {
        Some(
            choose|i: int|
                0 <= i < keys.len() && keys[i] == key && forall|j: int| 0 <= j < i ==> keys[j] != key,
        )
    } else {
        None
    }
}

/// Identifiers of `stages`, in order.
pub open spec fn stage_ids(stages: Seq<StageView>) -> Seq<Seq<char>> {
    Seq::new(stages.len(), |i: int| stages[i].identifier)
}

/// Keys of `prims`, in order.
pub open spec fn prim_keys(prims: Seq<PrimView>) -> Seq<Seq<char>> {
    Seq::new(prims.len(), |i: int| prim_key(prims[i].stage_id, prims[i].path))
}

/// `stages` with `stage` kept under its identifier: in the place of the stage
/// that had the identifier before, or at the end.
pub open spec fn put_stage(stages: Seq<StageView>, stage: StageView) -> Seq<StageView> {
    match position(stage_ids(stages), stage.identifier) {
        Some(i) => stages.update(i, stage),
        None => stages.push(stage),
    }
}

/// `prims` with `prim` kept under its key: in the place of the prim that had
/// the key before, or at the end.
pub open spec fn put_prim(prims: Seq<PrimView>, prim: PrimView) -> Seq<PrimView> {
    match position(prim_keys(prims), prim_key(prim.stage_id, prim.path)) {
        Some(i) => prims.update(i, prim),
        None => prims.push(prim),
    }
}

/// No key occurs twice.
pub open spec fn distinct(keys: Seq<Seq<char>>) -> bool {
    forall|i: int, j: int| 0 <= i < j < keys.len() ==> keys[i] != keys[j]
}

/// The first position of a key is a position of that key, and the only one
/// among distinct keys.
pub proof fn lemma_position(keys: Seq<Seq<char>>, key: Seq<char>)
    ensures
        match position(keys, key) {
            Some(i) => 0 <= i < keys.len() && keys[i] == key && forall|j: int|
                0 <= j < i ==> keys[j] != key,
            None => forall|j: int| 0 <= j < keys.len() ==> keys[j] != key,
        },
        forall|i: int|
            distinct(keys) && 0 <= i < keys.len() && keys[i] == key ==> position(keys, key)
                == Some(i),
{
    if exists|i: int| 0 <= i < keys.len() && keys[i] == key {
        let w = choose|i: int| 0 <= i < keys.len() && keys[i] == key;
        lemma_first_occurrence(keys, key, w);
    }
}

proof fn lemma_first_occurrence(keys: Seq<Seq<char>>, key: Seq<char>, w: int)
    requires
        0 <= w < keys.len(),
        keys[w] == key,
    ensures
        exists|i: int|
            0 <= i < keys.len() && keys[i] == key && forall|j: int| 0 <= j < i ==> keys[j] != key,
    decreases w,
{
    if exists|j: int| 0 <= j < w && keys[j] == key {
        let j = choose|j: int| 0 <= j < w && keys[j] == key;
        lemma_first_occurrence(keys, key, j);
    } else {
        assert(0 <= w < keys.len() && keys[w] == key && forall|j: int|
            0 <= j < w ==> keys[j] != key);
    }
}

/// After a stage was put, it is the stage under its identifier, every other
/// identifier names what it named before, and the identifiers are still
/// distinct.
pub proof fn lemma_put_stage(stages: Seq<StageView>, stage: StageView)
    requires
        distinct(stage_ids(stages)),
    ensures
        distinct(stage_ids(put_stage(stages, stage))),
        position(stage_ids(put_stage(stages, stage)), stage.identifier) matches Some(i)
            && put_stage(stages, stage)[i] == stage,
        forall|id: Seq<char>|
            id != stage.identifier ==> (#[trigger] position(stage_ids(put_stage(stages, stage)), id)
                == position(stage_ids(stages), id)),
        forall|i: int|
            0 <= i < stages.len() && stages[i].identifier != stage.identifier ==> put_stage(
                stages,
                stage,
            )[i] == stages[i],
{
    let ids = stage_ids(stages);
    let after = put_stage(stages, stage);
    let ids_after = stage_ids(after);
    lemma_position(ids, stage.identifier);
    match position(ids, stage.identifier) {
        Some(i) => {
            assert(ids_after =~= ids);
        },
        None => {
            assert(ids_after =~= ids.push(stage.identifier));
            assert(ids_after[ids.len() as int] == stage.identifier);
        },
    }
    lemma_position(ids_after, stage.identifier);
    assert forall|id: Seq<char>| id != stage.identifier implies (#[trigger] position(ids_after, id)
        == position(ids, id)) by {
        lemma_position(ids, id);
        lemma_position(ids_after, id);
        match position(ids, id) {
            Some(k) => {
                assert(ids_after[k] == id);
            },
            None => {
                if position(ids_after, id) is Some {
                    let k = position(ids_after, id).unwrap();
                    if k < ids.len() {
                        assert(ids[k] == id);
                    }
                }
            },
        }
    }
}

/// After a prim was put, it is the prim under its key, every other key names
/// what it named before, and the keys are still distinct.
pub proof fn lemma_put_prim(prims: Seq<PrimView>, prim: PrimView)
    requires
        distinct(prim_keys(prims)),
    ensures
        distinct(prim_keys(put_prim(prims, prim))),
        position(prim_keys(put_prim(prims, prim)), prim_key(prim.stage_id, prim.path)) matches Some(
            i,
        ) && put_prim(prims, prim)[i] == prim,
        forall|key: Seq<char>|
            key != prim_key(prim.stage_id, prim.path) ==> (#[trigger] position(
                prim_keys(put_prim(prims, prim)),
                key,
            ) == position(prim_keys(prims), key)),
{
    let own = prim_key(prim.stage_id, prim.path);
    let keys = prim_keys(prims);
    let after = put_prim(prims, prim);
    let keys_after = prim_keys(after);
    lemma_position(keys, own);
    match position(keys, own) {
        Some(i) => {
            assert(keys_after =~= keys);
        },
        None => {
            assert(keys_after =~= keys.push(own));
            assert(keys_after[keys.len() as int] == own);
        },
    }
    lemma_position(keys_after, own);
    assert forall|key: Seq<char>| key != own implies (#[trigger] position(keys_after, key)
        == position(keys, key)) by {
        lemma_position(keys, key);
        lemma_position(keys_after, key);
        match position(keys, key) {
            Some(k) => {
                assert(keys_after[k] == key);
            },
            None => {
                if position(keys_after, key) is Some {
                    let k = position(keys_after, key).unwrap();
                    if k < keys.len() {
                        assert(keys[k] == key);
                    }
                }
            },
        }
    }
}

/// The message for a stage that is not open.
pub open spec fn stage_not_found(stage_id: Seq<char>) -> Seq<char> {
    "Stage '"@ + stage_id + "' not found"@
}

/// The message for a prim that is not kept on a stage.
pub open spec fn prim_not_found_on_stage(path: Seq<char>, stage_id: Seq<char>) -> Seq<char> {
    "Prim '"@ + path + "' not found on stage '"@ + stage_id + "'"@
}

/// The message for a camera that is not kept.
pub open spec fn camera_not_found(path: Seq<char>) -> Seq<char> {
    "Camera '"@ + path + "' not found"@
}

/// The placeholder value of the attribute `attr_name`.
pub open spec fn mock_value(attr_name: Seq<char>) -> Seq<char> {
    "mock_value_for_"@ + attr_name
}

/// What adding a sublayer reports.
pub open spec fn sublayer_info(layer_path: Seq<char>, layer_offset: Seq<char>) -> Seq<char> {
    "SubLayer '"@ + layer_path + "' with offset "@ + layer_offset
}

/// The prim that a reference or payload points at: the one named, or the
/// asset's default prim.
pub open spec fn target_or_default(prim_target: Option<Seq<char>>) -> Seq<char> {
    match prim_target {
        Some(t) => t,
        None => "defaultPrim"@,
    }
}

/// What adding a reference reports.
pub open spec fn reference_info(asset_path: Seq<char>, prim_target: Option<Seq<char>>) -> Seq<
    char,
> {
    "Reference to '"@ + asset_path + "' -> '"@ + target_or_default(prim_target) + "'"@
}

/// What adding a payload reports.
pub open spec fn payload_info(asset_path: Seq<char>, prim_target: Option<Seq<char>>) -> Seq<char> {
    "Payload to '"@ + asset_path + "' -> '"@ + target_or_default(prim_target) + "' (deferred)"@
}

/// The text of an optional text.
pub open spec fn opt_text(t: Option<&str>) -> Option<Seq<char>> {
    match t {
        Some(t) => Some(t@),
        None => None,
    }
}

/// The prim's key begins with the stage's prefix: the prim is listed under
/// the stage.
pub open spec fn on_stage(prim: PrimView, stage_id: Seq<char>) -> bool {
    occurs_at(prim_key(prim.stage_id, prim.path), stage_prefix(stage_id), 0)
}

/// The paths of the prims that are listed under `stage_id`, in order.
pub open spec fn paths_on_stage(prims: Seq<PrimView>, stage_id: Seq<char>) -> Seq<Seq<char>>
    decreases prims.len(),
{
    if prims.len() == 0 {
        Seq::empty()
    } else if on_stage(prims.last(), stage_id) {
        paths_on_stage(prims.drop_last(), stage_id).push(prims.last().path)
    } else {
        paths_on_stage(prims.drop_last(), stage_id)
    }
}

/// The prims that are not listed under `stage_id`, in order.
pub open spec fn prims_off_stage(prims: Seq<PrimView>, stage_id: Seq<char>) -> Seq<PrimView>
    decreases prims.len(),
{
    if prims.len() == 0 {
        Seq::empty()
    } else if on_stage(prims.last(), stage_id) {
        prims_off_stage(prims.drop_last(), stage_id)
    } else {
        prims_off_stage(prims.drop_last(), stage_id).push(prims.last())
    }
}

/// The prims that were created on `stage_id`, in order.
pub open spec fn prims_of_stage(prims: Seq<PrimView>, stage_id: Seq<char>) -> Seq<PrimView>
    decreases prims.len(),
{
    if prims.len() == 0 {
        Seq::empty()
    } else if prims.last().stage_id == stage_id {
        prims_of_stage(prims.drop_last(), stage_id).push(prims.last())
    } else {
        prims_of_stage(prims.drop_last(), stage_id)
    }
}

/// Kinds that count as geometry in a render report.
pub open spec fn is_geometry_kind(prim_type: Seq<char>) -> bool {
    prim_type == "Sphere"@ || prim_type == "Cube"@ || prim_type == "Mesh"@ || prim_type
        == "Xform"@
}

/// Kinds that count as lights in a render report: those with `Light` in
/// their name.
pub open spec fn is_light_kind(prim_type: Seq<char>) -> bool {
    occurs_in(prim_type, "Light"@)
}

/// Kinds that count as materials in a render report.
pub open spec fn is_material_kind(prim_type: Seq<char>) -> bool {
    prim_type == "Material"@ || prim_type == "Shader"@
}

/// How many prims of each class a stage holds.
pub struct Census {
    pub geometry: usize,
    pub lights: usize,
    pub materials: usize,
}

/// One more prim counted, if it is listed under the stage.
pub open spec fn counted(sum: (nat, nat, nat), prim: PrimView, stage_id: Seq<char>) -> (
    nat,
    nat,
    nat,
) {
    if on_stage(prim, stage_id) {
        (
            if is_geometry_kind(prim.prim_type) {
                sum.0 + 1
            } else {
                sum.0
            },
            if is_light_kind(prim.prim_type) {
                sum.1 + 1
            } else {
                sum.1
            },
            if is_material_kind(prim.prim_type) {
                sum.2 + 1
            } else {
                sum.2
            },
        )
    } else {
        sum
    }
}

/// Geometry, lights and materials among the prims listed under `stage_id`.
pub open spec fn census(prims: Seq<PrimView>, stage_id: Seq<char>) -> (nat, nat, nat)
    decreases prims.len(),
{
    if prims.len() == 0 {
        (0, 0, 0)
    } else {
        counted(census(prims.drop_last(), stage_id), prims.last(), stage_id)
    }
}

/// The one-line render report.
pub open spec fn render_info(
    width: nat,
    height: nat,
    sum: (nat, nat, nat),
    camera_path: Seq<char>,
) -> Seq<char> {
    decimal_text(width) + "x"@ + decimal_text(height) + " | "@ + decimal_text(sum.0) + " geo | "@
        + decimal_text(sum.1) + " lights | "@ + decimal_text(sum.2) + " materials | camera: "@
        + camera_path
}

/// Every prim that stays when a stage is cleared was there before, and the
/// keys that stay are still distinct.
pub proof fn lemma_prims_off_stage(prims: Seq<PrimView>, stage_id: Seq<char>)
    ensures
        forall|a: int|
            0 <= a < prims_off_stage(prims, stage_id).len() ==> exists|j: int|
                0 <= j < prims.len() && prims[j] == #[trigger] prims_off_stage(prims, stage_id)[a],
        forall|a: int|
            0 <= a < prims_off_stage(prims, stage_id).len() ==> !on_stage(
                #[trigger] prims_off_stage(prims, stage_id)[a],
                stage_id,
            ),
        distinct(prim_keys(prims)) ==> distinct(prim_keys(prims_off_stage(prims, stage_id))),
    decreases prims.len(),
{
    if prims.len() > 0 {
        let head = prims.drop_last();
        let rest = prims_off_stage(head, stage_id);
        let off = prims_off_stage(prims, stage_id);
        lemma_prims_off_stage(head, stage_id);
        assert forall|a: int| 0 <= a < off.len() implies exists|j: int|
            0 <= j < prims.len() && prims[j] == #[trigger] off[a] by {
            if a < rest.len() {
                let j = choose|j: int| 0 <= j < head.len() && head[j] == rest[a];
                assert(prims[j] == off[a]);
            } else {
                assert(prims[prims.len() - 1] == off[a]);
            }
        }
        if distinct(prim_keys(prims)) {
            assert(distinct(prim_keys(head))) by {
                assert forall|i: int, j: int| 0 <= i < j < head.len() implies prim_keys(head)[i]
                    != prim_keys(head)[j] by {
                    assert(prim_keys(prims)[i] != prim_keys(prims)[j]);
                }
            }
            assert forall|a: int, b: int| 0 <= a < b < off.len() implies prim_keys(off)[a]
                != prim_keys(off)[b] by {
                if b < rest.len() {
                    assert(prim_keys(rest)[a] != prim_keys(rest)[b]);
                } else {
                    let j = choose|j: int| 0 <= j < head.len() && head[j] == rest[a];
                    assert(prim_keys(prims)[j] != prim_keys(prims)[prims.len() - 1]);
                }
            }
        }
    }
}

/// A prim is listed under the stage it was created on.
pub proof fn lemma_own_prim_on_stage(prim: PrimView)
    ensures
        on_stage(prim, prim.stage_id),
{
    let key = prim_key(prim.stage_id, prim.path);
    let prefix = stage_prefix(prim.stage_id);
    assert(key.subrange(0, prefix.len() as int) =~= prefix);
}

/// Finds `key` among `keys`.
fn find_key(keys: &Vec<String>, key: &String) -> (r: Option<usize>)
    ensures
        match r {
            Some(i) => i < keys.len() && keys@[i as int]@ == key@ && forall|j: int|
                0 <= j < i ==> keys@[j]@ != key@,
            None => forall|j: int| 0 <= j < keys.len() ==> keys@[j]@ != key@,
        },
{
    let mut i: usize = 0;
    while i < keys.len()
        invariant
            i <= keys.len(),
            forall|j: int| 0 <= j < i ==> keys@[j]@ != key@,
        decreases keys.len() - i,
    {
        if keys[i] == *key {
            return Some(i);
        }
        i += 1;
    }
    None
}

/// The texts of `strings`, in order.
pub open spec fn texts(strings: Seq<String>) -> Seq<Seq<char>> {
    Seq::new(strings.len(), |i: int| strings[i]@)
}

/// The scene repository.
pub struct USDEngine {
    stages: Vec<USDStage>,
    prims: Vec<USDPrim>,
    keys: Vec<String>,
}

impl USDEngine {
    /// The open stages, in the order in which their identifiers came in.
    pub closed spec fn stages(&self) -> Seq<StageView> {
        Seq::new(self.stages@.len(), |i: int| self.stages@[i]@)
    }

    /// The prims, in the order in which their keys came in.
    pub closed spec fn prims(&self) -> Seq<PrimView> {
        Seq::new(self.prims@.len(), |i: int| self.prims@[i]@)
    }

    /// The repository is consistent: no identifier and no key is held twice.
    pub closed spec fn wf(&self) -> bool {
        &&& distinct(stage_ids(self.stages()))
        &&& distinct(prim_keys(self.prims()))
        &&& texts(self.keys@) == prim_keys(self.prims())
    }

    /// A stage is open under `stage_id`.
    pub open spec fn has_stage(&self, stage_id: Seq<char>) -> bool {
        position(stage_ids(self.stages()), stage_id) is Some
    }

    /// A prim is kept for `path` on `stage_id`.
    pub open spec fn has_prim(&self, stage_id: Seq<char>, path: Seq<char>) -> bool {
        position(prim_keys(self.prims()), prim_key(stage_id, path)) is Some
    }

    /// In a consistent repository identifiers and keys are distinct.
    pub proof fn lemma_wf(&self)
        requires
            self.wf(),
        ensures
            distinct(stage_ids(self.stages())),
            distinct(prim_keys(self.prims())),
    {
    }

    /// An empty repository.
    pub fn new() -> (engine: USDEngine)
        ensures
            engine.wf(),
            engine.stages() == Seq::<StageView>::empty(),
            engine.prims() == Seq::<PrimView>::empty(),
    {
        let engine = USDEngine { stages: Vec::new(), prims: Vec::new(), keys: Vec::new() };
        assert(engine.stages() =~= Seq::<StageView>::empty());
        assert(engine.prims() =~= Seq::<PrimView>::empty());
        assert(texts(engine.keys@) =~= prim_keys(engine.prims()));
        engine
    }

    fn find_stage(&self, stage_id: &String) -> (r: Option<usize>)
        ensures
            r matches Some(i) ==> i < self.stages@.len(),
            match r {
                Some(i) => position(stage_ids(self.stages()), stage_id@) == Some(i as int),
                None => position(stage_ids(self.stages()), stage_id@) is None,
            },
    {
        let ghost ids = stage_ids(self.stages());
        let mut i: usize = 0;
        while i < self.stages.len()
            invariant
                i <= self.stages@.len(),
                ids == stage_ids(self.stages()),
                forall|j: int| 0 <= j < i ==> ids[j] != stage_id@,
            decreases self.stages@.len() - i,
        {
            if self.stages[i].identifier == *stage_id {
                proof {
                    assert(ids[i as int] == stage_id@);
                    lemma_position(ids, stage_id@);
                    let c = position(ids, stage_id@).unwrap();
                    assert(c == i) by {
                        if c < i {
                            assert(ids[c] != stage_id@);
                        }
                    }
                }
                return Some(i);
            }
            assert(ids[i as int] != stage_id@);
            i += 1;
        }
        proof {
            lemma_position(ids, stage_id@);
        }
        None
    }

    fn store_stage(&mut self, stage: USDStage)
        requires
            old(self).wf(),
        ensures
            final(self).wf(),
            final(self).stages() == put_stage(old(self).stages(), stage@),
            final(self).prims() == old(self).prims(),
    {
        let ghost before = self.stages();
        let ghost ids = stage_ids(before);
        proof {
            lemma_position(ids, stage.identifier@);
        }
        match self.find_stage(&stage.identifier) {
            Some(i) => {
                self.stages.set(i, stage);
                assert(self.stages() =~= before.update(i as int, stage@));
                assert(stage_ids(self.stages()) =~= ids);
            },
            None => {
                self.stages.push(stage);
                assert(self.stages() =~= before.push(stage@));
                assert(stage_ids(self.stages()) =~= ids.push(stage.identifier@));
            },
        }
        assert(self.prims() =~= old(self).prims());
    }

    /// Opens a new, empty stage under `identifier`. A stage that was open
    /// under that identifier is replaced.
    pub fn create_stage(&mut self, identifier: &str) -> (r: Result<USDStage, String>)
        requires
            old(self).wf(),
        ensures
            final(self).wf(),
            r matches Ok(stage) && stage@ == (StageView {
                path: "mock://"@ + identifier@,
                identifier: identifier@,
            }) && final(self).stages() == put_stage(old(self).stages(), stage@),
            final(self).prims() == old(self).prims(),
    {
        let mut path = "mock://".to_owned();
        path.append(identifier);
        self.store_stage(USDStage { path: path.clone(), identifier: identifier.to_owned() });
        Ok(USDStage { path, identifier: identifier.to_owned() })
    }

    /// Opens the stage stored at `file_path`. It is known as `loaded_` and
    /// the number of stages that were open before.
    pub fn load_stage(&mut self, file_path: &str) -> (r: Result<USDStage, String>)
        requires
            old(self).wf(),
        ensures
            final(self).wf(),
            r matches Ok(stage) && stage@ == (StageView {
                path: file_path@,
                identifier: "loaded_"@ + decimal_text(old(self).stages().len()),
            }) && final(self).stages() == put_stage(old(self).stages(), stage@),
            final(self).prims() == old(self).prims(),
    {
        let mut identifier = "loaded_".to_owned();
        let number = decimal(self.stages.len());
        identifier.append(number.as_str());
        self.store_stage(
            USDStage { path: file_path.to_owned(), identifier: identifier.clone() },
        );
        Ok(USDStage { path: file_path.to_owned(), identifier })
    }

    /// Opens a new stage that is meant to be written to `file_path`.
    pub fn create_stage_to_file(&mut self, identifier: &str, file_path: &str) -> (r: Result<
        USDStage,
        String,
    >)
        requires
            old(self).wf(),
        ensures
            final(self).wf(),
            r matches Ok(stage) && stage@ == (StageView {
                path: "mock://"@ + identifier@,
                identifier: identifier@,
            }) && final(self).stages() == put_stage(old(self).stages(), stage@),
            final(self).prims() == old(self).prims(),
    {
        self.create_stage(identifier)
    }

    /// The answer of an operation that only needs the stage to be open.
    pub open spec fn stage_checked<T>(
        &self,
        stage_id: Seq<char>,
        r: Result<T, String>,
        value: T,
    ) -> bool {
        if self.has_stage(stage_id) {
            r == Ok::<T, String>(value)
        } else {
            r matches Err(e) && e@ == stage_not_found(stage_id)
        }
    }

    fn missing_stage(stage_id: &str) -> (e: String)
        ensures
            e@ == stage_not_found(stage_id@),
    {
        concat3("Stage '", stage_id, "' not found")
    }

    /// Tells whether a stage is open under `stage_id`.
    pub fn stage_exists(&self, stage_id: &str) -> (r: bool)
        ensures
            r == self.has_stage(stage_id@),
    {
        let id = stage_id.to_owned();
        self.find_stage(&id).is_some()
    }

    /// The stage that is open under `stage_id`.
    pub fn get_stage(&self, stage_id: &str) -> (r: Option<&USDStage>)
        ensures
            match r {
                Some(stage) => position(stage_ids(self.stages()), stage_id@) matches Some(i)
                    && stage@ == self.stages()[i],
                None => !self.has_stage(stage_id@),
            },
    {
        let id = stage_id.to_owned();
        match self.find_stage(&id) {
            Some(i) => Some(&self.stages[i]),
            None => None,
        }
    }

    /// The identifiers of the open stages.
    pub fn list_stages(&self) -> (ids: Vec<String>)
        ensures
            texts(ids@) == stage_ids(self.stages()),
    {
        let mut ids: Vec<String> = Vec::new();
        let mut i: usize = 0;
        while i < self.stages.len()
            invariant
                i <= self.stages@.len(),
                ids@.len() == i,
                forall|j: int| 0 <= j < i ==> (#[trigger] ids@[j])@ == self.stages@[j].identifier@,
            decreases self.stages@.len() - i,
        {
            ids.push(self.stages[i].identifier.clone());
            i += 1;
        }
        assert(texts(ids@) =~= stage_ids(self.stages()));
        ids
    }

    /// The identifiers of the open stages.
    pub fn get_stage_ids(&self) -> (ids: Vec<String>)
        ensures
            texts(ids@) == stage_ids(self.stages()),
    {
        self.list_stages()
    }

    fn key_of(stage_id: &str, path: &str) -> (key: String)
        ensures
            key@ == prim_key(stage_id@, path@),
    {
        proof {
            reveal_strlit(":");
        }
        let key = concat3(stage_id, ":", path);
        assert(":"@ =~= seq![':']);
        key
    }

    fn find_prim(&self, key: &String) -> (r: Option<usize>)
        requires
            self.wf(),
        ensures
            r matches Some(i) ==> i < self.prims@.len(),
            match r {
                Some(i) => position(prim_keys(self.prims()), key@) == Some(i as int),
                None => position(prim_keys(self.prims()), key@) is None,
            },
    {
        let ghost keys = prim_keys(self.prims());
        assert(self.keys@.len() == texts(self.keys@).len());
        assert forall|j: int| 0 <= j < self.keys@.len() implies self.keys@[j]@ == keys[j] by {
            assert(texts(self.keys@)[j] == self.keys@[j]@);
        }
        let r = find_key(&self.keys, key);
        proof {
            match r {
                Some(i) => {
                    assert(keys[i as int] == key@);
                    lemma_position(keys, key@);
                    let c = position(keys, key@).unwrap();
                    assert(c == i) by {
                        if c < i {
                            assert(self.keys@[c]@ != key@);
                        }
                    }
                },
                None => {
                    assert forall|j: int| 0 <= j < keys.len() implies keys[j] != key@ by {
                        assert(self.keys@[j]@ != key@);
                    }
                    lemma_position(keys, key@);
                },
            }
        }
        r
    }

    /// Tells whether a prim is kept for `prim_path` on `stage_id`.
    pub fn prim_exists(&self, stage_id: &str, prim_path: &str) -> (r: bool)
        requires
            self.wf(),
        ensures
            r == self.has_prim(stage_id@, prim_path@),
    {
        let key = Self::key_of(stage_id, prim_path);
        self.find_prim(&key).is_some()
    }

    /// Creates a prim of kind `prim_type` at `prim_path` on the stage
    /// `stage_id`, which must be open. A prim that was kept under the same
    /// key is replaced.
    pub fn create_prim(&mut self, stage_id: &str, prim_path: &str, prim_type: &str) -> (r: Result<
        USDPrim,
        String,
    >)
        requires
            old(self).wf(),
        ensures
            final(self).wf(),
            final(self).stages() == old(self).stages(),
            old(self).created(*final(self), stage_id@, prim_path@, prim_type@, r),
    {
        if !self.stage_exists(stage_id) {
            return Err(Self::missing_stage(stage_id));
        }
        let ghost before = self.prims();
        let ghost keys = prim_keys(before);
        let key = Self::key_of(stage_id, prim_path);
        let prim = USDPrim {
            path: prim_path.to_owned(),
            prim_type: prim_type.to_owned(),
            stage_id: stage_id.to_owned(),
        };
        proof {
            lemma_position(keys, key@);
        }
        match self.find_prim(&key) {
            Some(i) => {
                self.prims.set(i, prim);
                assert(self.prims() =~= before.update(i as int, prim@));
                assert(prim_keys(self.prims()) =~= keys);
            },
            None => {
                self.prims.push(prim);
                self.keys.push(key);
                assert(self.prims() =~= before.push(prim@));
                assert(prim_keys(self.prims()) =~= keys.push(key@));
                assert(texts(self.keys@) =~= texts(old(self).keys@).push(key@));
            },
        }
        assert(self.stages() =~= old(self).stages());
        Ok(
            USDPrim {
                path: prim_path.to_owned(),
                prim_type: prim_type.to_owned(),
                stage_id: stage_id.to_owned(),
            },
        )
    }

    /// What creating a prim answers and leaves behind: on an open stage the
    /// new prim, kept under its key; on any other the message that the stage
    /// was not found, and the prims as they were.
    pub open spec fn created(
        &self,
        after: USDEngine,
        stage_id: Seq<char>,
        path: Seq<char>,
        prim_type: Seq<char>,
        r: Result<USDPrim, String>,
    ) -> bool {
        if self.has_stage(stage_id) {
            &&& r matches Ok(prim) && prim@ == (PrimView { path, prim_type, stage_id })
            &&& after.prims() == put_prim(self.prims(), PrimView { path, prim_type, stage_id })
        } else {
            &&& r matches Err(e) && e@ == stage_not_found(stage_id)
            &&& after.prims() == self.prims()
        }
    }

    /// Creates an xform at `prim_path` on the stage `stage_id`.
    pub fn create_xform(&mut self, stage_id: &str, prim_path: &str) -> (r: Result<USDPrim, String>)
        requires
            old(self).wf(),
        ensures
            final(self).wf(),
            final(self).stages() == old(self).stages(),
            old(self).created(*final(self), stage_id@, prim_path@, "Xform"@, r),
    {
        self.create_prim(stage_id, prim_path, "Xform")
    }

    /// Creates a sphere at `prim_path` on the stage `stage_id`.
    pub fn create_sphere(&mut self, stage_id: &str, prim_path: &str) -> (r: Result<USDPrim, String>)
        requires
            old(self).wf(),
        ensures
            final(self).wf(),
            final(self).stages() == old(self).stages(),
            old(self).created(*final(self), stage_id@, prim_path@, "Sphere"@, r),
    {
        self.create_prim(stage_id, prim_path, "Sphere")
    }

    /// Creates a cube at `prim_path` on the stage `stage_id`.
    pub fn create_cube(&mut self, stage_id: &str, prim_path: &str) -> (r: Result<USDPrim, String>)
        requires
            old(self).wf(),
        ensures
            final(self).wf(),
            final(self).stages() == old(self).stages(),
            old(self).created(*final(self), stage_id@, prim_path@, "Cube"@, r),
    {
        self.create_prim(stage_id, prim_path, "Cube")
    }

    /// Creates a cylinder at `prim_path` on the stage `stage_id`.
    pub fn create_cylinder(
        &mut self,
        stage_id: &str,
        prim_path: &str,
    ) -> (r: Result<USDPrim, String>)
        requires
            old(self).wf(),
        ensures
            final(self).wf(),
            final(self).stages() == old(self).stages(),
            old(self).created(*final(self), stage_id@, prim_path@, "Cylinder"@, r),
    {
        self.create_prim(stage_id, prim_path, "Cylinder")
    }

    /// Creates a cone at `prim_path` on the stage `stage_id`.
    pub fn create_cone(&mut self, stage_id: &str, prim_path: &str) -> (r: Result<USDPrim, String>)
        requires
            old(self).wf(),
        ensures
            final(self).wf(),
            final(self).stages() == old(self).stages(),
            old(self).created(*final(self), stage_id@, prim_path@, "Cone"@, r),
    {
        self.create_prim(stage_id, prim_path, "Cone")
    }

    /// Creates a plane at `prim_path` on the stage `stage_id`.
    pub fn create_plane(&mut self, stage_id: &str, prim_path: &str) -> (r: Result<USDPrim, String>)
        requires
            old(self).wf(),
        ensures
            final(self).wf(),
            final(self).stages() == old(self).stages(),
            old(self).created(*final(self), stage_id@, prim_path@, "Plane"@, r),
    {
        self.create_prim(stage_id, prim_path, "Plane")
    }

    /// Creates a capsule at `prim_path` on the stage `stage_id`.
    pub fn create_capsule(
        &mut self,
        stage_id: &str,
        prim_path: &str,
    ) -> (r: Result<USDPrim, String>)
        requires
            old(self).wf(),
        ensures
            final(self).wf(),
            final(self).stages() == old(self).stages(),
            old(self).created(*final(self), stage_id@, prim_path@, "Capsule"@, r),
    {
        self.create_prim(stage_id, prim_path, "Capsule")
    }

    /// Creates a torus at `prim_path` on the stage `stage_id`.
    pub fn create_torus(&mut self, stage_id: &str, prim_path: &str) -> (r: Result<USDPrim, String>)
        requires
            old(self).wf(),
        ensures
            final(self).wf(),
            final(self).stages() == old(self).stages(),
            old(self).created(*final(self), stage_id@, prim_path@, "Torus"@, r),
    {
        self.create_prim(stage_id, prim_path, "Torus")
    }

    /// Creates a mesh at `prim_path` on the stage `stage_id`.
    pub fn create_mesh(&mut self, stage_id: &str, prim_path: &str) -> (r: Result<USDPrim, String>)
        requires
            old(self).wf(),
        ensures
            final(self).wf(),
            final(self).stages() == old(self).stages(),
            old(self).created(*final(self), stage_id@, prim_path@, "Mesh"@, r),
    {
        self.create_prim(stage_id, prim_path, "Mesh")
    }

    /// Creates a point cloud at `prim_path` on the stage `stage_id`.
    pub fn create_points(&mut self, stage_id: &str, prim_path: &str) -> (r: Result<USDPrim, String>)
        requires
            old(self).wf(),
        ensures
            final(self).wf(),
            final(self).stages() == old(self).stages(),
            old(self).created(*final(self), stage_id@, prim_path@, "Points"@, r),
    {
        self.create_prim(stage_id, prim_path, "Points")
    }

    /// Creates a set of curves at `prim_path` on the stage `stage_id`. The
    /// curve type is an attribute of the prim and is not kept here.
    pub fn create_curves(
        &mut self,
        stage_id: &str,
        prim_path: &str,
        curve_type: &str,
    ) -> (r: Result<USDPrim, String>)
        requires
            old(self).wf(),
        ensures
            final(self).wf(),
            final(self).stages() == old(self).stages(),
            old(self).created(*final(self), stage_id@, prim_path@, "BasisCurves"@, r),
    {
        self.create_prim(stage_id, prim_path, "BasisCurves")
    }

    /// Creates a camera at `prim_path` on the stage `stage_id`.
    pub fn create_camera(&mut self, stage_id: &str, prim_path: &str) -> (r: Result<USDPrim, String>)
        requires
            old(self).wf(),
        ensures
            final(self).wf(),
            final(self).stages() == old(self).stages(),
            old(self).created(*final(self), stage_id@, prim_path@, "Camera"@, r),
    {
        self.create_prim(stage_id, prim_path, "Camera")
    }

    /// Creates a distant light at `prim_path` on the stage `stage_id`.
    pub fn create_distant_light(
        &mut self,
        stage_id: &str,
        prim_path: &str,
    ) -> (r: Result<USDPrim, String>)
        requires
            old(self).wf(),
        ensures
            final(self).wf(),
            final(self).stages() == old(self).stages(),
            old(self).created(*final(self), stage_id@, prim_path@, "DistantLight"@, r),
    {
        self.create_prim(stage_id, prim_path, "DistantLight")
    }

    /// Creates a sphere light at `prim_path` on the stage `stage_id`.
    pub fn create_sphere_light(
        &mut self,
        stage_id: &str,
        prim_path: &str,
    ) -> (r: Result<USDPrim, String>)
        requires
            old(self).wf(),
        ensures
            final(self).wf(),
            final(self).stages() == old(self).stages(),
            old(self).created(*final(self), stage_id@, prim_path@, "SphereLight"@, r),
    {
        self.create_prim(stage_id, prim_path, "SphereLight")
    }

    /// Creates a rectangular light at `prim_path` on the stage `stage_id`.
    pub fn create_rect_light(
        &mut self,
        stage_id: &str,
        prim_path: &str,
    ) -> (r: Result<USDPrim, String>)
        requires
            old(self).wf(),
        ensures
            final(self).wf(),
            final(self).stages() == old(self).stages(),
            old(self).created(*final(self), stage_id@, prim_path@, "RectLight"@, r),
    {
        self.create_prim(stage_id, prim_path, "RectLight")
    }

    /// Creates a cylinder light at `prim_path` on the stage `stage_id`.
    pub fn create_cylinder_light(
        &mut self,
        stage_id: &str,
        prim_path: &str,
    ) -> (r: Result<USDPrim, String>)
        requires
            old(self).wf(),
        ensures
            final(self).wf(),
            final(self).stages() == old(self).stages(),
            old(self).created(*final(self), stage_id@, prim_path@, "CylinderLight"@, r),
    {
        self.create_prim(stage_id, prim_path, "CylinderLight")
    }

    /// Creates a dome light at `prim_path` on the stage `stage_id`. The
    /// texture is an attribute of the prim and is not kept here.
    pub fn create_dome_light(
        &mut self,
        stage_id: &str,
        prim_path: &str,
        texture_file: Option<&str>,
    ) -> (r: Result<USDPrim, String>)
        requires
            old(self).wf(),
        ensures
            final(self).wf(),
            final(self).stages() == old(self).stages(),
            old(self).created(*final(self), stage_id@, prim_path@, "DomeLight"@, r),
    {
        self.create_prim(stage_id, prim_path, "DomeLight")
    }

    /// Creates a disk light at `prim_path` on the stage `stage_id`.
    pub fn create_disk_light(
        &mut self,
        stage_id: &str,
        prim_path: &str,
    ) -> (r: Result<USDPrim, String>)
        requires
            old(self).wf(),
        ensures
            final(self).wf(),
            final(self).stages() == old(self).stages(),
            old(self).created(*final(self), stage_id@, prim_path@, "DiskLight"@, r),
    {
        self.create_prim(stage_id, prim_path, "DiskLight")
    }

    /// Creates a material at `prim_path` on the stage `stage_id`.
    pub fn create_material(
        &mut self,
        stage_id: &str,
        prim_path: &str,
    ) -> (r: Result<USDPrim, String>)
        requires
            old(self).wf(),
        ensures
            final(self).wf(),
            final(self).stages() == old(self).stages(),
            old(self).created(*final(self), stage_id@, prim_path@, "Material"@, r),
    {
        self.create_prim(stage_id, prim_path, "Material")
    }

    /// Creates a shader at `prim_path` on the stage `stage_id`. The shader
    /// type is an attribute of the prim and is not kept here.
    pub fn create_shader(
        &mut self,
        stage_id: &str,
        prim_path: &str,
        shader_type: &str,
    ) -> (r: Result<USDPrim, String>)
        requires
            old(self).wf(),
        ensures
            final(self).wf(),
            final(self).stages() == old(self).stages(),
            old(self).created(*final(self), stage_id@, prim_path@, "Shader"@, r),
    {
        self.create_prim(stage_id, prim_path, "Shader")
    }

    /// Creates a preview surface, which is a shader, at `prim_path` on the stage `stage_id`.
    pub fn create_preview_surface(
        &mut self,
        stage_id: &str,
        prim_path: &str,
    ) -> (r: Result<USDPrim, String>)
        requires
            old(self).wf(),
        ensures
            final(self).wf(),
            final(self).stages() == old(self).stages(),
            old(self).created(*final(self), stage_id@, prim_path@, "Shader"@, r),
    {
        self.create_prim(stage_id, prim_path, "Shader")
    }

    /// Creates a texture reader, which is a shader, at `prim_path` on the
    /// stage `stage_id`. The file is an attribute of the prim and is not kept
    /// here.
    pub fn create_texture(
        &mut self,
        stage_id: &str,
        prim_path: &str,
        file_path: &str,
    ) -> (r: Result<USDPrim, String>)
        requires
            old(self).wf(),
        ensures
            final(self).wf(),
            final(self).stages() == old(self).stages(),
            old(self).created(*final(self), stage_id@, prim_path@, "Shader"@, r),
    {
        self.create_prim(stage_id, prim_path, "Shader")
    }

    /// Sets the attribute `attr_name` of a prim. Attribute values are not kept
    /// here, so all that is decided is whether the stage is open.
    pub fn set_attribute(
        &self,
        stage_id: &str,
        prim_path: &str,
        attr_name: &str,
        value: &str,
    ) -> (r: Result<(), String>)
        ensures
            self.stage_checked(stage_id@, r, ()),
    {
        if self.stage_exists(stage_id) {
            Ok(())
        } else {
            Err(Self::missing_stage(stage_id))
        }
    }

    /// Makes `prim_path` the default prim of the stage.
    pub fn set_default_prim(&mut self, stage_id: &str, prim_path: &str) -> (r: Result<(), String>)
        requires
            old(self).wf(),
        ensures
            final(self).wf(),
            final(self).stages() == old(self).stages(),
            final(self).prims() == old(self).prims(),
            old(self).stage_checked(stage_id@, r, ()),
    {
        if self.stage_exists(stage_id) {
            Ok(())
        } else {
            Err(Self::missing_stage(stage_id))
        }
    }

    /// Sets the purpose of a prim.
    pub fn set_prim_purpose(
        &mut self,
        stage_id: &str,
        prim_path: &str,
        purpose: &str,
    ) -> (r: Result<(), String>)
        requires
            old(self).wf(),
        ensures
            final(self).wf(),
            final(self).stages() == old(self).stages(),
            final(self).prims() == old(self).prims(),
            old(self).stage_checked(stage_id@, r, ()),
    {
        if self.stage_exists(stage_id) {
            Ok(())
        } else {
            Err(Self::missing_stage(stage_id))
        }
    }

    /// Sets the visibility of a prim.
    pub fn set_prim_visibility(
        &mut self,
        stage_id: &str,
        prim_path: &str,
        visibility: &str,
    ) -> (r: Result<(), String>)
        requires
            old(self).wf(),
        ensures
            final(self).wf(),
            final(self).stages() == old(self).stages(),
            final(self).prims() == old(self).prims(),
            old(self).stage_checked(stage_id@, r, ()),
    {
        if self.stage_exists(stage_id) {
            Ok(())
        } else {
            Err(Self::missing_stage(stage_id))
        }
    }

    /// Exports the stage to `file_path` in the given format.
    pub fn export_stage(
        &self,
        stage_id: &str,
        file_path: &str,
        format: &str,
    ) -> (r: Result<(), String>)
        ensures
            self.stage_checked(stage_id@, r, ()),
    {
        if self.stage_exists(stage_id) {
            Ok(())
        } else {
            Err(Self::missing_stage(stage_id))
        }
    }

    /// Sets the transform of a prim. Transforms are not kept here, so all that is decided is
    /// whether the prim exists.
    pub fn set_transform(&mut self, stage_id: &str, prim_path: &str) -> (r: Result<(), String>)
        requires
            old(self).wf(),
        ensures
            final(self).wf(),
            final(self).stages() == old(self).stages(),
            final(self).prims() == old(self).prims(),
            old(self).prim_checked(stage_id@, prim_path@, r),
    {
        self.check_prim(stage_id, prim_path)
    }

    /// Sets the translation of a prim. Transforms are not kept here, so all that is decided is
    /// whether the prim exists.
    pub fn set_translation(&mut self, stage_id: &str, prim_path: &str) -> (r: Result<(), String>)
        requires
            old(self).wf(),
        ensures
            final(self).wf(),
            final(self).stages() == old(self).stages(),
            final(self).prims() == old(self).prims(),
            old(self).prim_checked(stage_id@, prim_path@, r),
    {
        self.check_prim(stage_id, prim_path)
    }

    /// Sets the rotation of a prim. Transforms are not kept here, so all that is decided is
    /// whether the prim exists.
    pub fn set_rotation(&mut self, stage_id: &str, prim_path: &str) -> (r: Result<(), String>)
        requires
            old(self).wf(),
        ensures
            final(self).wf(),
            final(self).stages() == old(self).stages(),
            final(self).prims() == old(self).prims(),
            old(self).prim_checked(stage_id@, prim_path@, r),
    {
        self.check_prim(stage_id, prim_path)
    }

    /// Sets the scale of a prim. Transforms are not kept here, so all that is decided is
    /// whether the prim exists.
    pub fn set_scale(&mut self, stage_id: &str, prim_path: &str) -> (r: Result<(), String>)
        requires
            old(self).wf(),
        ensures
            final(self).wf(),
            final(self).stages() == old(self).stages(),
            final(self).prims() == old(self).prims(),
            old(self).prim_checked(stage_id@, prim_path@, r),
    {
        self.check_prim(stage_id, prim_path)
    }

    /// The answer of an operation that only needs the prim to exist.
    pub open spec fn prim_checked(
        &self,
        stage_id: Seq<char>,
        path: Seq<char>,
        r: Result<(), String>,
    ) -> bool {
        if self.has_prim(stage_id, path) {
            r is Ok
        } else {
            r matches Err(e) && e@ == prim_not_found_on_stage(path, stage_id)
        }
    }

    fn check_prim(&self, stage_id: &str, prim_path: &str) -> (r: Result<(), String>)
        requires
            self.wf(),
        ensures
            self.prim_checked(stage_id@, prim_path@, r),
    {
        if self.prim_exists(stage_id, prim_path) {
            Ok(())
        } else {
            let mut e = concat3("Prim '", prim_path, "' not found on stage '");
            e.append(stage_id);
            e.append("'");
            Err(e)
        }
    }

    /// Sets the lens of a camera. The values are not kept here, so all that
    /// is decided is whether the camera exists.
    pub fn set_camera_properties(&mut self, stage_id: &str, prim_path: &str) -> (r: Result<
        (),
        String,
    >)
        requires
            old(self).wf(),
        ensures
            final(self).wf(),
            final(self).stages() == old(self).stages(),
            final(self).prims() == old(self).prims(),
            old(self).has_prim(stage_id@, prim_path@) ==> r is Ok,
            !old(self).has_prim(stage_id@, prim_path@) ==> (r matches Err(e) && e@
                == camera_not_found(prim_path@)),
    {
        if self.prim_exists(stage_id, prim_path) {
            Ok(())
        } else {
            Err(concat3("Camera '", prim_path, "' not found"))
        }
    }

    /// Binds a material to a prim. Both have to exist on the stage.
    pub fn bind_material(&mut self, stage_id: &str, prim_path: &str, material_path: &str) -> (r:
        Result<(), String>)
        requires
            old(self).wf(),
        ensures
            final(self).wf(),
            final(self).stages() == old(self).stages(),
            final(self).prims() == old(self).prims(),
            old(self).has_prim(stage_id@, prim_path@) && old(self).has_prim(
                stage_id@,
                material_path@,
            ) ==> r is Ok,
            !(old(self).has_prim(stage_id@, prim_path@) && old(self).has_prim(
                stage_id@,
                material_path@,
            )) ==> (r matches Err(e) && e@ == "Prim or material not found"@),
    {
        if self.prim_exists(stage_id, prim_path) && self.prim_exists(stage_id, material_path) {
            Ok(())
        } else {
            Err("Prim or material not found".to_owned())
        }
    }

    /// Reads the attribute `attr_name` of a prim. Attribute values are not
    /// kept here: on an open stage the answer is a placeholder that names the
    /// attribute.
    pub fn get_attribute(&self, stage_id: &str, prim_path: &str, attr_name: &str) -> (r: Result<
        String,
        String,
    >)
        ensures
            self.has_stage(stage_id@) ==> (r matches Ok(v) && v@ == mock_value(attr_name@)),
            !self.has_stage(stage_id@) ==> (r matches Err(e) && e@ == stage_not_found(stage_id@)),
    {
        if self.stage_exists(stage_id) {
            let mut v = "mock_value_for_".to_owned();
            v.append(attr_name);
            Ok(v)
        } else {
            Err(Self::missing_stage(stage_id))
        }
    }

    /// Adds the layer at `layer_path` to the stage as a sublayer. The time
    /// offset comes as the text that the report is to show.
    pub fn add_sublayer(&self, stage_id: &str, layer_path: &str, layer_offset: &str) -> (r: Result<
        String,
        String,
    >)
        ensures
            self.has_stage(stage_id@) ==> (r matches Ok(info) && info@ == sublayer_info(
                layer_path@,
                layer_offset@,
            )),
            !self.has_stage(stage_id@) ==> (r matches Err(e) && e@ == stage_not_found(stage_id@)),
    {
        if self.stage_exists(stage_id) {
            let mut info = concat3("SubLayer '", layer_path, "' with offset ");
            info.append(layer_offset);
            Ok(info)
        } else {
            Err(Self::missing_stage(stage_id))
        }
    }

    fn target_text(prim_target: Option<&str>) -> (t: &str)
        ensures
            t@ == target_or_default(opt_text(prim_target)),
    {
        match prim_target {
            Some(t) => t,
            None => "defaultPrim",
        }
    }

    /// Adds a reference to the asset at `asset_path` under `prim_path`, which
    /// becomes an xform.
    pub fn add_reference(
        &mut self,
        stage_id: &str,
        prim_path: &str,
        asset_path: &str,
        prim_target: Option<&str>,
    ) -> (r: Result<String, String>)
        requires
            old(self).wf(),
        ensures
            final(self).wf(),
            final(self).stages() == old(self).stages(),
            old(self).linked(
                *final(self),
                stage_id@,
                prim_path@,
                reference_info(asset_path@, opt_text(prim_target)),
                r,
            ),
    {
        match self.create_prim(stage_id, prim_path, "Xform") {
            Ok(_) => {
                let mut info = concat3("Reference to '", asset_path, "' -> '");
                info.append(Self::target_text(prim_target));
                info.append("'");
                Ok(info)
            },
            Err(e) => Err(e),
        }
    }

    /// Adds a payload, an asset that is loaded on demand, under `prim_path`,
    /// which becomes an xform.
    pub fn add_payload(
        &mut self,
        stage_id: &str,
        prim_path: &str,
        asset_path: &str,
        prim_target: Option<&str>,
    ) -> (r: Result<String, String>)
        requires
            old(self).wf(),
        ensures
            final(self).wf(),
            final(self).stages() == old(self).stages(),
            old(self).linked(
                *final(self),
                stage_id@,
                prim_path@,
                payload_info(asset_path@, opt_text(prim_target)),
                r,
            ),
    {
        match self.create_prim(stage_id, prim_path, "Xform") {
            Ok(_) => {
                let mut info = concat3("Payload to '", asset_path, "' -> '");
                info.append(Self::target_text(prim_target));
                info.append("' (deferred)");
                Ok(info)
            },
            Err(e) => Err(e),
        }
    }

    /// What linking an asset answers and leaves behind: on an open stage the
    /// report `info` and an xform at `path`; on any other the message that the
    /// stage was not found, and the prims as they were.
    pub open spec fn linked(
        &self,
        after: USDEngine,
        stage_id: Seq<char>,
        path: Seq<char>,
        info: Seq<char>,
        r: Result<String, String>,
    ) -> bool {
        if self.has_stage(stage_id) {
            &&& r matches Ok(text) && text@ == info
            &&& after.prims() == put_prim(
                self.prims(),
                PrimView { path, prim_type: "Xform"@, stage_id },
            )
        } else {
            &&& r matches Err(e) && e@ == stage_not_found(stage_id)
            &&& after.prims() == self.prims()
        }
    }

    proof fn lemma_keys_aligned(&self)
        requires
            self.wf(),
        ensures
            self.keys@.len() == self.prims@.len(),
            self.prims().len() == self.prims@.len(),
            forall|i: int|
                0 <= i < self.prims@.len() ==> (#[trigger] self.keys@[i])@ == prim_key(
                    self.prims@[i].stage_id@,
                    self.prims@[i].path@,
                ),
    {
        assert(self.keys@.len() == texts(self.keys@).len());
        assert forall|i: int| 0 <= i < self.prims@.len() implies (#[trigger] self.keys@[i])@
            == prim_key(self.prims@[i].stage_id@, self.prims@[i].path@) by {
            assert(texts(self.keys@)[i] == self.keys@[i]@);
            assert(prim_keys(self.prims())[i] == prim_key(
                self.prims()[i].stage_id,
                self.prims()[i].path,
            ));
        }
    }

    fn prefix_of(stage_id: &str) -> (prefix: String)
        ensures
            prefix@ == stage_prefix(stage_id@),
    {
        proof {
            reveal_strlit(":");
        }
        let mut prefix = stage_id.to_owned();
        prefix.append(":");
        assert(":"@ =~= seq![':']);
        prefix
    }

    fn listed(&self, i: usize, prefix: &String, Ghost(stage_id): Ghost<Seq<char>>) -> (r: bool)
        requires
            self.wf(),
            i < self.prims@.len(),
            prefix@ == stage_prefix(stage_id),
        ensures
            r == on_stage(self.prims()[i as int], stage_id),
    {
        proof {
            self.lemma_keys_aligned();
        }
        has_prefix(self.keys[i].as_str(), prefix.as_str())
    }

    /// The paths of the prims that are listed under `stage_id`: those whose
    /// key begins with the stage's identifier and a colon.
    pub fn list_prims(&self, stage_id: &str) -> (paths: Vec<String>)
        requires
            self.wf(),
        ensures
            texts(paths@) == paths_on_stage(self.prims(), stage_id@),
    {
        let prefix = Self::prefix_of(stage_id);
        let mut paths: Vec<String> = Vec::new();
        let mut i: usize = 0;
        assert(self.prims().take(0) =~= Seq::<PrimView>::empty());
        assert(texts(paths@) =~= Seq::<Seq<char>>::empty());
        while i < self.prims.len()
            invariant
                self.wf(),
                prefix@ == stage_prefix(stage_id@),
                i <= self.prims@.len(),
                self.prims@.len() == self.prims().len(),
                texts(paths@) == paths_on_stage(self.prims().take(i as int), stage_id@),
            decreases self.prims@.len() - i,
        {
            let ghost before = texts(paths@);
            proof {
                let next = self.prims().take(i + 1);
                assert(next.drop_last() =~= self.prims().take(i as int));
                assert(next.last() == self.prims()[i as int]);
                assert(self.prims()[i as int].path == self.prims@[i as int].path@);
            }
            if self.listed(i, &prefix, Ghost(stage_id@)) {
                paths.push(self.prims[i].path.clone());
                assert(texts(paths@) =~= before.push(self.prims@[i as int].path@));
            }
            i += 1;
        }
        assert(self.prims().take(i as int) =~= self.prims());
        paths
    }

    /// The prims that were created on `stage_id`.
    pub fn get_stage_prims(&self, stage_id: &str) -> (found: Vec<&USDPrim>)
        ensures
            Seq::new(found@.len(), |k: int| found@[k]@) == prims_of_stage(self.prims(), stage_id@),
    {
        let id = stage_id.to_owned();
        let mut found: Vec<&USDPrim> = Vec::new();
        let mut i: usize = 0;
        assert(self.prims().take(0) =~= Seq::<PrimView>::empty());
        assert(Seq::new(found@.len(), |k: int| found@[k]@) =~= Seq::<PrimView>::empty());
        while i < self.prims.len()
            invariant
                id@ == stage_id@,
                i <= self.prims@.len(),
                self.prims@.len() == self.prims().len(),
                Seq::new(found@.len(), |k: int| found@[k]@) == prims_of_stage(
                    self.prims().take(i as int),
                    stage_id@,
                ),
            decreases self.prims@.len() - i,
        {
            let ghost before = Seq::new(found@.len(), |k: int| found@[k]@);
            proof {
                let next = self.prims().take(i + 1);
                assert(next.drop_last() =~= self.prims().take(i as int));
                assert(next.last() == self.prims()[i as int]);
                assert(self.prims()[i as int] == self.prims@[i as int]@);
            }
            if self.prims[i].stage_id == id {
                found.push(&self.prims[i]);
                assert(Seq::new(found@.len(), |k: int| found@[k]@) =~= before.push(
                    self.prims@[i as int]@,
                ));
            }
            i += 1;
        }
        assert(self.prims().take(i as int) =~= self.prims());
        found
    }

    /// Removes every prim that is listed under `stage_id`. The stage itself
    /// stays open.
    pub fn clear_stage(&mut self, stage_id: &str) -> (r: Result<(), String>)
        requires
            old(self).wf(),
        ensures
            final(self).wf(),
            final(self).stages() == old(self).stages(),
            old(self).stage_checked(stage_id@, r, ()),
            final(self).prims() == if old(self).has_stage(stage_id@) {
                prims_off_stage(old(self).prims(), stage_id@)
            } else {
                old(self).prims()
            },
    {
        if !self.stage_exists(stage_id) {
            return Err(Self::missing_stage(stage_id));
        }
        let prefix = Self::prefix_of(stage_id);
        let mut prims: Vec<USDPrim> = Vec::new();
        let mut keys: Vec<String> = Vec::new();
        let ghost all = self.prims();
        let mut i: usize = 0;
        assert(all.take(0) =~= Seq::<PrimView>::empty());
        assert(Seq::new(prims@.len(), |k: int| prims@[k]@) =~= Seq::<PrimView>::empty());
        assert(texts(keys@) =~= prim_keys(Seq::<PrimView>::empty()));
        while i < self.prims.len()
            invariant
                self.wf(),
                *self == *old(self),
                all == self.prims(),
                prefix@ == stage_prefix(stage_id@),
                i <= self.prims@.len(),
                self.prims@.len() == all.len(),
                Seq::new(prims@.len(), |k: int| prims@[k]@) == prims_off_stage(
                    all.take(i as int),
                    stage_id@,
                ),
                texts(keys@) == prim_keys(prims_off_stage(all.take(i as int), stage_id@)),
            decreases self.prims@.len() - i,
        {
            let ghost before = Seq::new(prims@.len(), |k: int| prims@[k]@);
            let ghost keys_before = texts(keys@);
            proof {
                let next = all.take(i + 1);
                assert(next.drop_last() =~= all.take(i as int));
                assert(next.last() == all[i as int]);
                assert(all[i as int] == self.prims@[i as int]@);
                self.lemma_keys_aligned();
            }
            if !self.listed(i, &prefix, Ghost(stage_id@)) {
                let prim = USDPrim {
                    path: self.prims[i].path.clone(),
                    prim_type: self.prims[i].prim_type.clone(),
                    stage_id: self.prims[i].stage_id.clone(),
                };
                prims.push(prim);
                keys.push(self.keys[i].clone());
                assert(Seq::new(prims@.len(), |k: int| prims@[k]@) =~= before.push(all[i as int]));
                assert(texts(keys@) =~= keys_before.push(self.keys@[i as int]@));
                assert(prim_keys(before.push(all[i as int])) =~= prim_keys(before).push(
                    prim_key(all[i as int].stage_id, all[i as int].path),
                ));
            }
            i += 1;
        }
        proof {
            assert(all.take(i as int) =~= all);
            lemma_prims_off_stage(all, stage_id@);
        }
        self.prims = prims;
        self.keys = keys;
        assert(self.prims() =~= prims_off_stage(all, stage_id@));
        assert(self.stages() =~= old(self).stages());
        Ok(())
    }

    /// Counts geometry, lights and materials among the prims listed under
    /// `stage_id`.
    pub fn count_prims(&self, stage_id: &str) -> (sum: Census)
        requires
            self.wf(),
        ensures
            (sum.geometry as nat, sum.lights as nat, sum.materials as nat) == census(
                self.prims(),
                stage_id@,
            ),
    {
        let prefix = Self::prefix_of(stage_id);
        let sphere = "Sphere".to_owned();
        let cube = "Cube".to_owned();
        let mesh = "Mesh".to_owned();
        let xform = "Xform".to_owned();
        let material = "Material".to_owned();
        let shader = "Shader".to_owned();
        let mut geometry: usize = 0;
        let mut lights: usize = 0;
        let mut materials: usize = 0;
        let mut i: usize = 0;
        assert(self.prims().take(0) =~= Seq::<PrimView>::empty());
        while i < self.prims.len()
            invariant
                self.wf(),
                prefix@ == stage_prefix(stage_id@),
                sphere@ == "Sphere"@,
                cube@ == "Cube"@,
                mesh@ == "Mesh"@,
                xform@ == "Xform"@,
                material@ == "Material"@,
                shader@ == "Shader"@,
                i <= self.prims@.len(),
                self.prims@.len() == self.prims().len(),
                geometry <= i,
                lights <= i,
                materials <= i,
                (geometry as nat, lights as nat, materials as nat) == census(
                    self.prims().take(i as int),
                    stage_id@,
                ),
            decreases self.prims@.len() - i,
        {
            proof {
                let next = self.prims().take(i + 1);
                assert(next.drop_last() =~= self.prims().take(i as int));
                assert(next.last() == self.prims()[i as int]);
                assert(self.prims()[i as int] == self.prims@[i as int]@);
            }
            if self.listed(i, &prefix, Ghost(stage_id@)) {
                let kind = &self.prims[i].prim_type;
                if *kind == sphere || *kind == cube || *kind == mesh || *kind == xform {
                    geometry += 1;
                }
                if contains_text(kind.as_str(), "Light") {
                    lights += 1;
                }
                if *kind == material || *kind == shader {
                    materials += 1;
                }
            }
            i += 1;
        }
        assert(self.prims().take(i as int) =~= self.prims());
        Census { geometry, lights, materials }
    }

    /// Renders the stage through a viewport and reports what was drawn: the
    /// image size, how many prims of each class the stage holds, and the
    /// camera.
    pub fn render_stage(
        &self,
        stage_id: &str,
        viewport_name: &str,
        camera_path: &str,
        width: u32,
        height: u32,
    ) -> (r: Result<String, String>)
        requires
            self.wf(),
        ensures
            self.has_stage(stage_id@) ==> (r matches Ok(info) && info@ == render_info(
                width as nat,
                height as nat,
                census(self.prims(), stage_id@),
                camera_path@,
            )),
            !self.has_stage(stage_id@) ==> (r matches Err(e) && e@ == stage_not_found(stage_id@)),
    {
        if !self.stage_exists(stage_id) {
            return Err(Self::missing_stage(stage_id));
        }
        let sum = self.count_prims(stage_id);
        let mut info = decimal(width as usize);
        info.append("x");
        info.append(decimal(height as usize).as_str());
        info.append(" | ");
        info.append(decimal(sum.geometry).as_str());
        info.append(" geo | ");
        info.append(decimal(sum.lights).as_str());
        info.append(" lights | ");
        info.append(decimal(sum.materials).as_str());
        info.append(" materials | camera: ");
        info.append(camera_path);
        Ok(info)
    }

    /// Saves the stage `stage_id` to `file_path`. The repository holds no
    /// scene data of its own, so all it decides is whether the stage is open.
    pub fn save_stage(&self, stage_id: &str, file_path: &str, format: Option<&str>) -> (r: Result<
        bool,
        String,
    >)
        ensures
            self.stage_checked(stage_id@, r, true),
    {
        if self.stage_exists(stage_id) {
            Ok(true)
        } else {
            Err(Self::missing_stage(stage_id))
        }
    }
}

impl Default for USDEngine {
    /// An empty repository.
    fn default() -> (engine: USDEngine)
        ensures
            engine.wf(),
            engine.stages() == Seq::<StageView>::empty(),
            engine.prims() == Seq::<PrimView>::empty(),
    {
        USDEngine::new()
    }
}

} // verus!
