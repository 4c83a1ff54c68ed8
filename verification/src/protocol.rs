//! The load/attach compatibility protocol.
//!
//! Before a configuration reaches the external kernel-loading subsystem,
//! every optional field known to vary across kernel versions is checked
//! against the running kernel's structure definition: a field the kernel
//! lacks is cleared to its safe default and reported as a non-fatal notice,
//! a field the kernel has passes through unchanged. The caller supplies only
//! the rule set — one (field name, safe default) pair per optional field —
//! never the adaptation logic itself.
//!
//! The protocol's state machine runs `Unloaded → Loaded → Attached →
//! Unloaded`. The external load and attach subsystems stay outside this
//! crate; the caller performs each external step and reports its outcome,
//! and the machine accepts or rejects the transition.

use vstd::prelude::*;

use crate::CompatError;
use crate::database::DbModel;
use crate::database::TypeDatabase;
use crate::names::bytes_equal;
use crate::resolve::spec_struct_has_field;
use crate::resolve::struct_has_field;

verus! {

/// One named field of a configuration object, with its requested value.
#[derive(Debug)]
pub struct ConfigField {
    /// The field's name in the target structure.
    pub name: Vec<u8>,
    /// The value the caller asks for.
    pub value: u64,
}

/// One adaptation rule: an optional field known to vary across kernel
/// versions, and the safe default it is cleared to when the running kernel
/// lacks it.
#[derive(Debug)]
pub struct FieldRule {
    /// The optional field's name.
    pub field: Vec<u8>,
    /// The value that is safe on kernels without the field.
    pub safe_default: u64,
}

/// A non-fatal compatibility notice: the named optional field was requested
/// with a non-default value, but the running kernel lacks it, so it was
/// cleared.
#[derive(Debug)]
pub struct Notice {
    /// The field that was cleared.
    pub field: Vec<u8>,
    /// The value the caller had asked for.
    pub requested: u64,
}

/// Mathematical image of a configuration field.
pub struct FieldModel {
    /// The field's name.
    pub name: Seq<u8>,
    /// The requested value.
    pub value: u64,
}

/// Mathematical image of an adaptation rule.
pub struct RuleModel {
    /// The optional field's name.
    pub field: Seq<u8>,
    /// The safe default.
    pub safe_default: u64,
}

/// Mathematical image of a compatibility notice.
pub struct NoticeModel {
    /// The field that was cleared.
    pub field: Seq<u8>,
    /// The value the caller had asked for.
    pub requested: u64,
}

impl View for ConfigField {
    type V = FieldModel;

    open spec fn view(&self) -> FieldModel {
        FieldModel { name: self.name@, value: self.value }
    }
}

impl View for FieldRule {
    type V = RuleModel;

    open spec fn view(&self) -> RuleModel {
        RuleModel { field: self.field@, safe_default: self.safe_default }
    }
}

impl View for Notice {
    type V = NoticeModel;

    open spec fn view(&self) -> NoticeModel {
        NoticeModel { field: self.field@, requested: self.requested }
    }
}

/// The images of a sequence of configuration fields.
pub open spec fn fields_model(s: Seq<ConfigField>) -> Seq<FieldModel> {
    Seq::new(s.len(), |i: int| s[i]@)
}

/// The images of a sequence of rules.
pub open spec fn rules_model(s: Seq<FieldRule>) -> Seq<RuleModel> {
    Seq::new(s.len(), |i: int| s[i]@)
}

/// The images of a sequence of notices.
pub open spec fn notices_model(s: Seq<Notice>) -> Seq<NoticeModel> {
    Seq::new(s.len(), |i: int| s[i]@)
}

/// Whether applying `rule` clears field `f`: the rule names it, the running
/// kernel lacks it, and the caller asked for other than the safe default.
pub open spec fn field_downgraded(f: FieldModel, rule: RuleModel, present: bool) -> bool {
    f.name == rule.field && !present && f.value != rule.safe_default
}

/// One field after one rule: cleared to the safe default when downgraded,
/// untouched otherwise.
pub open spec fn adapt_field(f: FieldModel, rule: RuleModel, present: bool) -> FieldModel {
    if field_downgraded(f, rule, present) {
        FieldModel { name: f.name, value: rule.safe_default }
    } else {
        f
    }
}

/// A whole configuration after one rule, field by field.
pub open spec fn adapted_fields(fs: Seq<FieldModel>, rule: RuleModel, present: bool) -> Seq<
    FieldModel,
> {
    Seq::new(fs.len(), |i: int| adapt_field(fs[i], rule, present))
}

/// The notices one rule emits: one per downgraded field, in field order,
/// each carrying the value the caller had asked for.
pub open spec fn rule_notices(
    fs: Seq<FieldModel>,
    rule: RuleModel,
    present: bool,
    i: int,
) -> Seq<NoticeModel>
    decreases fs.len() - i,
{
    if i < 0 || i >= fs.len() {
        Seq::empty()
    } else {
        let rest = rule_notices(fs, rule, present, i + 1);
        if field_downgraded(fs[i], rule, present) {
            seq![NoticeModel { field: fs[i].name, requested: fs[i].value }] + rest
        } else {
            rest
        }
    }
}

/// A whole configuration after the rules from position `i` on, applied in
/// order, with the notices of every rule concatenated. The probe's failures
/// propagate: a missing target structure or a malformed name fails the
/// adaptation, and with it the load.
pub open spec fn spec_adapt_from(
    db: DbModel,
    target: Seq<u8>,
    fs: Seq<FieldModel>,
    rules: Seq<RuleModel>,
    i: int,
) -> Result<(Seq<FieldModel>, Seq<NoticeModel>), CompatError>
    decreases rules.len() - i,
{
    if i < 0 || i >= rules.len() {
        Ok((fs, Seq::empty()))
    } else {
        match spec_struct_has_field(db, target, rules[i].field) {
            Err(e) => Err(e),
            Ok(present) => match spec_adapt_from(
                db,
                target,
                adapted_fields(fs, rules[i], present),
                rules,
                i + 1,
            ) {
                Err(e) => Err(e),
                Ok(pair) => Ok((pair.0, rule_notices(fs, rules[i], present, 0) + pair.1)),
            },
        }
    }
}

/// What `adapt_config` answers: the configuration after every rule, and the
/// notices the rules emitted.
pub open spec fn spec_adapt(
    db: DbModel,
    target: Seq<u8>,
    fs: Seq<FieldModel>,
    rules: Seq<RuleModel>,
) -> Result<(Seq<FieldModel>, Seq<NoticeModel>), CompatError> {
    spec_adapt_from(db, target, fs, rules, 0)
}

/// Copies a name, byte for byte.
fn copy_bytes(v: &Vec<u8>) -> (r: Vec<u8>)
    ensures
        r@ == v@,
{
    let mut r: Vec<u8> = Vec::new();
    let n = v.len();
    let mut i: usize = 0;
    while i < n
        invariant
            i <= n == v@.len(),
            r@ =~= v@.subrange(0, i as int),
        decreases n - i,
    {
        r.push(v[i]);
        proof {
            assert(r@ =~= v@.subrange(0, i + 1 as int));
        }
        i = i + 1;
    }
    proof {
        assert(r@ =~= v@);
    }
    r
}

/// Applies one rule to every field of the configuration, collecting one
/// notice per cleared field.
#[verifier::loop_isolation(false)]
fn apply_rule(fields: Vec<ConfigField>, rule: &FieldRule, present: bool) -> (r: (
    Vec<ConfigField>,
    Vec<Notice>,
))
    ensures
        fields_model(r.0@) == adapted_fields(fields_model(fields@), rule@, present),
        notices_model(r.1@) == rule_notices(fields_model(fields@), rule@, present, 0),
{
    let ghost orig = fields_model(fields@);
    let mut fields = fields;
    let mut notices: Vec<Notice> = Vec::new();
    let n = fields.len();
    let mut k: usize = 0;
    while k < n
        invariant
            k <= n == fields@.len(),
            forall|j: int| 0 <= j < k ==> fields_model(fields@)[j] == adapt_field(
                orig[j],
                rule@,
                present,
            ),
            forall|j: int| k <= j < n ==> fields_model(fields@)[j] == orig[j],
            rule_notices(orig, rule@, present, 0) == notices_model(notices@) + rule_notices(
                orig,
                rule@,
                present,
                k as int,
            ),
        decreases n - k,
    {
        let ghost notices_before = notices_model(notices@);
        let ghost fields_before = fields@;
        let downgrade = {
            let f = &fields[k];
            !present && f.value != rule.safe_default && bytes_equal(&f.name, rule.field.as_slice())
        };
        proof {
            assert(downgrade == field_downgraded(orig[k as int], rule@, present));
        }
        if downgrade {
            let requested = fields[k].value;
            let cleared = ConfigField {
                name: copy_bytes(&fields[k].name),
                value: rule.safe_default,
            };
            let note = Notice { field: copy_bytes(&fields[k].name), requested };
            let ghost note_model = note@;
            let ghost cleared_model = cleared@;
            fields.set(k, cleared);
            notices.push(note);
            proof {
                assert(fields_model(fields@)[k as int] == cleared_model);
                assert(cleared_model == adapt_field(orig[k as int], rule@, present));
                assert(notices_model(notices@) =~= notices_before + seq![note_model]);
                assert(notices_before + (seq![note_model] + rule_notices(
                    orig,
                    rule@,
                    present,
                    k + 1,
                )) =~= (notices_before + seq![note_model]) + rule_notices(
                    orig,
                    rule@,
                    present,
                    k + 1,
                ));
            }
        } else {
            proof {
                assert(fields_model(fields@)[k as int] == adapt_field(
                    orig[k as int],
                    rule@,
                    present,
                ));
            }
        }
        proof {
            assert forall|j: int| 0 <= j < k + 1 implies fields_model(fields@)[j] == adapt_field(
                orig[j],
                rule@,
                present,
            ) by {
                if j < k {
                    assert(fields@[j] == fields_before[j]);
                    assert(fields_model(fields_before)[j] == adapt_field(orig[j], rule@, present));
                }
            }
            assert forall|j: int| k + 1 <= j < n implies fields_model(fields@)[j] == orig[j] by {
                assert(fields@[j] == fields_before[j]);
                assert(fields_model(fields_before)[j] == orig[j]);
            }
        }
        k = k + 1;
    }
    proof {
        assert(fields_model(fields@) =~= adapted_fields(orig, rule@, present));
        assert(notices_model(notices@) + Seq::<NoticeModel>::empty() =~= notices_model(notices@));
    }
    (fields, notices)
}

/// Adapts the configuration with the rules from position `i` on.
fn adapt_from(
    db: &TypeDatabase,
    target: &[u8],
    fields: Vec<ConfigField>,
    rules: &Vec<FieldRule>,
    i: usize,
) -> (r: Result<(Vec<ConfigField>, Vec<Notice>), CompatError>)
    ensures
        ({
            let s = spec_adapt_from(
                db@,
                target@,
                fields_model(fields@),
                rules_model(rules@),
                i as int,
            );
            match r {
                Ok(pair) => s == Ok::<_, CompatError>(
                    (fields_model(pair.0@), notices_model(pair.1@)),
                ),
                Err(e) => s == Err::<(Seq<FieldModel>, Seq<NoticeModel>), _>(e),
            }
        }),
    decreases rules@.len() - i,
{
    if i >= rules.len() {
        let out: Vec<Notice> = Vec::new();
        proof {
            assert(notices_model(out@) =~= Seq::<NoticeModel>::empty());
        }
        return Ok((fields, out));
    }
    let rule = &rules[i];
    let present = match struct_has_field(db, target, rule.field.as_slice()) {
        Ok(p) => p,
        Err(e) => {
            return Err(e);
        },
    };
    let stepped = apply_rule(fields, rule, present);
    let ghost first_notices = notices_model(stepped.1@);
    let mut notices = stepped.1;
    match adapt_from(db, target, stepped.0, rules, i + 1) {
        Ok(pair) => {
            let (adapted, rest) = pair;
            let mut rest = rest;
            let ghost rest_notices = notices_model(rest@);
            notices.append(&mut rest);
            proof {
                assert(notices_model(notices@) =~= first_notices + rest_notices);
            }
            Ok((adapted, notices))
        },
        Err(e) => Err(e),
    }
}

/// Adapts a configuration to the running kernel, rule by rule: every
/// optional field the kernel lacks is cleared to its safe default and
/// reported in a notice; every field the kernel has keeps the caller's
/// value. Fails only when the probe itself fails, never over a missing
/// optional field.
pub fn adapt_config(
    db: &TypeDatabase,
    target: &[u8],
    fields: Vec<ConfigField>,
    rules: &Vec<FieldRule>,
) -> (r: Result<(Vec<ConfigField>, Vec<Notice>), CompatError>)
    ensures
        ({
            let s = spec_adapt(db@, target@, fields_model(fields@), rules_model(rules@));
            match r {
                Ok(pair) => s == Ok::<_, CompatError>(
                    (fields_model(pair.0@), notices_model(pair.1@)),
                ),
                Err(e) => s == Err::<(Seq<FieldModel>, Seq<NoticeModel>), _>(e),
            }
        }),
{
    adapt_from(db, target, fields, rules, 0)
}

/// The protocol's position in the load/attach cycle.
#[derive(Clone, Copy, Debug, PartialEq, Eq, Structural)]
pub enum ProtocolState {
    /// Nothing loaded; a fresh load may begin.
    Unloaded,
    /// The configuration and bytecode were accepted by the kernel-loading
    /// subsystem; the policy is not yet active.
    Loaded,
    /// The loaded object is installed as the active policy.
    Attached,
}

/// What reporting a load outcome does: accepted only from `Unloaded`; a
/// success reaches `Loaded`, a failure — of the external subsystem, or of a
/// load attempted out of order — is `LoadError` and leaves the state.
pub open spec fn spec_load_step(s: ProtocolState, outcome: bool) -> (ProtocolState, Result<
    (),
    CompatError,
>) {
    if !(s is Unloaded) {
        (s, Err(CompatError::LoadError))
    } else if outcome {
        (ProtocolState::Loaded, Ok(()))
    } else {
        (s, Err(CompatError::LoadError))
    }
}

/// What reporting an attach outcome does: accepted only from `Loaded`; a
/// success reaches `Attached`, anything else is `AttachError` and leaves the
/// state.
pub open spec fn spec_attach_step(s: ProtocolState, outcome: bool) -> (ProtocolState, Result<
    (),
    CompatError,
>) {
    if !(s is Loaded) {
        (s, Err(CompatError::AttachError))
    } else if outcome {
        (ProtocolState::Attached, Ok(()))
    } else {
        (s, Err(CompatError::AttachError))
    }
}

/// What detaching does: from `Attached` the kernel resource is released and
/// the cycle returns to `Unloaded`; anywhere else there is nothing to
/// release.
pub open spec fn spec_detach_step(s: ProtocolState) -> (ProtocolState, bool) {
    if s is Attached {
        (ProtocolState::Unloaded, true)
    } else {
        (s, false)
    }
}

/// Orchestrates one load/attach cycle against the external kernel
/// subsystems. The caller adapts its configuration through `prepare_load`,
/// hands the result to the external loader, and reports each external
/// outcome back; the machine rejects every out-of-order step.
#[derive(Debug)]
pub struct CompatibilityProtocol {
    state: ProtocolState,
}

impl View for CompatibilityProtocol {
    type V = ProtocolState;

    closed spec fn view(&self) -> ProtocolState {
        self.state
    }
}

impl CompatibilityProtocol {
    /// A fresh protocol, with nothing loaded.
    pub fn new() -> (p: Self)
        ensures
            p@ is Unloaded,
    {
        CompatibilityProtocol { state: ProtocolState::Unloaded }
    }

    /// The protocol's current position in the cycle.
    pub fn state(&self) -> (s: ProtocolState)
        ensures
            s == self@,
    {
        self.state
    }

    /// Adapts a configuration for a fresh load. Only the `Unloaded` state
    /// may begin a load; otherwise the answer is `LoadError` and nothing is
    /// adapted.
    pub fn prepare_load(
        &self,
        db: &TypeDatabase,
        target: &[u8],
        fields: Vec<ConfigField>,
        rules: &Vec<FieldRule>,
    ) -> (r: Result<(Vec<ConfigField>, Vec<Notice>), CompatError>)
        ensures
            self@ is Unloaded ==> ({
                let s = spec_adapt(db@, target@, fields_model(fields@), rules_model(rules@));
                match r {
                    Ok(pair) => s == Ok::<_, CompatError>(
                        (fields_model(pair.0@), notices_model(pair.1@)),
                    ),
                    Err(e) => s == Err::<(Seq<FieldModel>, Seq<NoticeModel>), _>(e),
                }
            }),
            !(self@ is Unloaded) ==> r is Err && (r matches Err(e) && e == CompatError::LoadError),
    {
        match self.state {
            ProtocolState::Unloaded => adapt_config(db, target, fields, rules),
            _ => Err(CompatError::LoadError),
        }
    }

    /// Reports the external loader's outcome, advancing `Unloaded` to
    /// `Loaded` on success.
    pub fn complete_load(&mut self, outcome: bool) -> (r: Result<(), CompatError>)
        ensures
            final(self)@ == spec_load_step(old(self)@, outcome).0,
            r == spec_load_step(old(self)@, outcome).1,
    {
        match self.state {
            ProtocolState::Unloaded => {
                if outcome {
                    self.state = ProtocolState::Loaded;
                    Ok(())
                } else {
                    Err(CompatError::LoadError)
                }
            },
            _ => Err(CompatError::LoadError),
        }
    }

    /// Reports the external attach subsystem's outcome, advancing `Loaded`
    /// to `Attached` on success.
    pub fn complete_attach(&mut self, outcome: bool) -> (r: Result<(), CompatError>)
        ensures
            final(self)@ == spec_attach_step(old(self)@, outcome).0,
            r == spec_attach_step(old(self)@, outcome).1,
    {
        match self.state {
            ProtocolState::Loaded => {
                if outcome {
                    self.state = ProtocolState::Attached;
                    Ok(())
                } else {
                    Err(CompatError::AttachError)
                }
            },
            _ => Err(CompatError::AttachError),
        }
    }

    /// Releases the attachment, returning the cycle to `Unloaded`. Answers
    /// whether anything was held: releasing is deterministic, so a restart
    /// loop can repeat the whole cycle without leaking the prior attachment.
    pub fn detach(&mut self) -> (released: bool)
        ensures
            final(self)@ == spec_detach_step(old(self)@).0,
            released == spec_detach_step(old(self)@).1,
    {
        match self.state {
            ProtocolState::Attached => {
                self.state = ProtocolState::Unloaded;
                true
            },
            _ => false,
        }
    }
}

/// One full cycle runs exactly once: from `Unloaded`, a successful load is
/// accepted and reaches `Loaded`, a successful attach then reaches
/// `Attached`, and detaching releases the resource and returns to
/// `Unloaded`, ready for a fresh cycle.
pub proof fn lemma_full_cycle()
    ensures
        spec_load_step(ProtocolState::Unloaded, true) == (ProtocolState::Loaded, Ok::<
            (),
            CompatError,
        >(())),
        spec_attach_step(ProtocolState::Loaded, true) == (ProtocolState::Attached, Ok::<
            (),
            CompatError,
        >(())),
        spec_detach_step(ProtocolState::Attached) == (ProtocolState::Unloaded, true),
{
}

/// `Attached` cannot be reached by skipping `Loaded`: no load or detach
/// step produces it, and an attach produces it only from `Loaded` with a
/// successful outcome. Rejected steps leave the state alone.
pub proof fn lemma_no_skip_to_attached(s: ProtocolState, outcome: bool)
    ensures
        spec_load_step(s, outcome).0 is Attached ==> s is Attached,
        spec_attach_step(s, outcome).0 is Attached ==> (s is Loaded && outcome) || s is Attached,
        !(spec_detach_step(s).0 is Attached),
{
}

/// No transition re-enters `Loaded` from `Attached`: a fresh load — and so
/// a pass through `Unloaded` — is required to restart the cycle.
pub proof fn lemma_no_return_to_loaded(outcome: bool)
    ensures
        spec_load_step(ProtocolState::Attached, outcome).0 is Attached,
        spec_attach_step(ProtocolState::Attached, outcome).0 is Attached,
        spec_detach_step(ProtocolState::Attached).0 is Unloaded,
{
}

} // verus!
