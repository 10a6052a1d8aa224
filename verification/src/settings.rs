use vstd::prelude::*;

use crate::db::{spec_find_rule, Exec, Rule, RulesDatabase, find_rule};
use crate::doc::{doc_of, get_field, get_map, parse_text, spec_as_str, spec_field, Node};
use crate::errors::AppError;
use crate::onoff::{spec_as_u32, spec_flip, spec_parse_on_off, OnOffType};
use crate::utils::str_eq;

verus! {

/// A settings document: a portable snapshot of desired values, one entry
/// per rule name.
#[derive(Debug, Clone)]
pub struct Settings {
    pub file: String,
    pub settings: Vec<(String, String)>,
}

/// The marker every settings document must carry in its `file` field.
pub open spec fn spec_settings_marker() -> Seq<char> {
    "redsigil.dfckr.settings.v1"@
}

/// The marker every settings document must carry in its `file` field.
pub fn file_marker() -> (r: &'static str)
    ensures
        r@ == spec_settings_marker(),
{
    "redsigil.dfckr.settings.v1"
}

/// The entries kept from a settings mapping: the pairs whose value is
/// plain text, in document order.  Other pairs are silently skipped, the
/// documented lossy-parse policy.
pub open spec fn spec_settings_entries(entries: Seq<(String, Node)>) -> Seq<(Seq<char>, Seq<char>)>
    decreases entries.len(),
{
    if entries.len() == 0 {
        Seq::<(Seq<char>, Seq<char>)>::empty()
    } else {
        let rest = spec_settings_entries(entries.drop_last());
        match entries.last().1 {
            Node::Str(s) => rest.push((entries.last().0@, s@)),
            _ => rest,
        }
    }
}

/// The views of loaded entries.
pub open spec fn spec_entry_views(entries: Seq<(String, String)>) -> Seq<(Seq<char>, Seq<char>)> {
    entries.map_values(|p: (String, String)| (p.0@, p.1@))
}

/// Exactly when loading a settings document must succeed, and what it must
/// yield: the `file` field must be text equal to the expected marker, the
/// `settings` section must be a mapping, and the document then holds the
/// text-valued pairs of that mapping, in order.
pub open spec fn spec_settings_result(r: Result<Settings, AppError>, docn: Node) -> bool {
    match spec_as_str(spec_field(docn, "file"@)) {
        None => r matches Err(AppError::MalformedDocument),
        Some(marker) => if marker != spec_settings_marker() {
            r matches Err(AppError::FormatMismatch(m)) && m@ == marker
        } else {
            match spec_field(docn, "settings"@) {
                Node::Dict(entries) => {
                    &&& r matches Ok(s)
                    &&& s.file@ == marker
                    &&& spec_entry_views(s.settings@) == spec_settings_entries(entries@)
                },
                _ => r matches Err(AppError::MalformedDocument),
            }
        },
    }
}

/// Builds a settings document from an already parsed document tree.
pub fn parse_settings(docn: &Node) -> (r: Result<Settings, AppError>)
    ensures
        spec_settings_result(r, *docn),
{
    let file = match get_field(docn, "file") {
        Some(Node::Str(s)) => s.clone(),
        _ => { return Err(AppError::MalformedDocument) },
    };
    if !str_eq(file.as_str(), file_marker()) {
        return Err(AppError::FormatMismatch(file));
    }
    match get_map(docn, "settings") {
        None => Err(AppError::MalformedDocument),
        Some(entries) => {
            let n = entries.len();
            let mut kept: Vec<(String, String)> = Vec::new();
            let mut i: usize = 0;
            while i < n
                invariant
                    n == entries@.len(),
                    i <= n,
                    spec_entry_views(kept@) == spec_settings_entries(entries@.take(i as int)),
                decreases n - i,
            {
                let pair = &entries[i];
                match &pair.1 {
                    Node::Str(s) => {
                        kept.push((pair.0.clone(), s.clone()));
                    },
                    _ => {},
                }
                proof {
                    assert(entries@.take(i as int + 1).drop_last() =~= entries@.take(i as int));
                    assert(entries@.take(i as int + 1).last() == entries@[i as int]);
                    assert(spec_entry_views(kept@) =~= spec_settings_entries(
                        entries@.take(i as int + 1),
                    ));
                }
                i = i + 1;
            }
            proof {
                assert(entries@.take(n as int) =~= entries@);
            }
            Ok(Settings { file, settings: kept })
        },
    }
}

/// Reads a settings document from source text; a text that does not parse
/// is a malformed document.
pub fn read_settings_file(contents: &str) -> (r: Result<Settings, AppError>)
    ensures
        match doc_of(contents@) {
            Some(docn) => spec_settings_result(r, docn),
            None => r matches Err(AppError::MalformedDocument),
        },
{
    match parse_text(contents) {
        Some(docn) => parse_settings(&docn),
        None => Err(AppError::MalformedDocument),
    }
}

/// One planned subsystem write: what one operation stores under a
/// desired value.  The caller performs it through the key-value subsystem;
/// the plan states path, value name and the raw 32-bit data.
#[derive(Debug, Clone)]
pub struct WriteOp {
    pub path: String,
    pub value_name: String,
    pub data: u32,
}

/// The view of one planned write.
pub struct WritePlan {
    pub path: Seq<char>,
    pub value_name: Seq<char>,
    pub data: u32,
}

/// The views of a sequence of planned writes.
pub open spec fn spec_write_views(ws: Seq<WriteOp>) -> Seq<WritePlan> {
    ws.map_values(
        |w: WriteOp| (WritePlan { path: w.path@, value_name: w.value_name@, data: w.data }),
    )
}

/// Whether the execution engine can carry out one operation: only the
/// "registry" subsystem with 32-bit integer data.
pub open spec fn spec_op_writable(op: Exec) -> bool {
    &&& op.subsystem@ == "registry"@
    &&& (op.value_type@ == "i32"@ || op.value_type@ == "u32"@)
}

/// The raw value one operation stores for a desired logical value: the
/// value itself, or its inverse when the operation is reversed.
pub open spec fn spec_write_value(op: Exec, desired: OnOffType) -> u32 {
    if op.reversed == Some(true) {
        spec_as_u32(spec_flip(desired))
    } else {
        spec_as_u32(desired)
    }
}

/// The writes owed for a sequence of operations under a parsed desired
/// value, in declared order.
pub open spec fn spec_writes_for(ops: Seq<Exec>, desired: OnOffType) -> Seq<WritePlan> {
    ops.map_values(
        |op: Exec| (WritePlan {
            path: op.path@,
            value_name: op.value@,
            data: spec_write_value(op, desired),
        }),
    )
}

/// The writes owed for a sequence of operations under a desired value
/// text; when the text does not parse there are none to owe.
pub open spec fn spec_writes_prefix(ops: Seq<Exec>, desired: Seq<char>) -> Seq<WritePlan> {
    match spec_parse_on_off(desired) {
        Some(v) => spec_writes_for(ops, v),
        None => Seq::<WritePlan>::empty(),
    }
}

/// Exactly when planning a rule's operations must succeed: every
/// operation is writable, and the desired value parses whenever there is
/// an operation to write.
pub open spec fn spec_ops_accept(ops: Seq<Exec>, desired: Seq<char>) -> bool {
    &&& forall|j: int| 0 <= j < ops.len() ==> spec_op_writable(#[trigger] ops[j])
    &&& ops.len() > 0 ==> spec_parse_on_off(desired) is Some
}

/// The error owed for a rule's operations: the first operation the engine
/// cannot execute names it, checking the subsystem, then the data type,
/// then the desired value, in the order the operations are declared.
pub open spec fn spec_ops_err(e: AppError, ops: Seq<Exec>, rule_name: Seq<char>, desired: Seq<char>) -> bool {
    exists|k: int|
        #![auto]
        {
            &&& 0 <= k < ops.len()
            &&& (forall|j: int| 0 <= j < k ==> spec_op_writable(#[trigger] ops[j]))
            &&& (k > 0 ==> spec_parse_on_off(desired) is Some)
            &&& if ops[k].subsystem@ != "registry"@ {
                e matches AppError::UnsupportedSubsystem(s) && s@ == ops[k].subsystem@
            } else if ops[k].value_type@ != "i32"@ && ops[k].value_type@ != "u32"@ {
                e matches AppError::UnsupportedDataType(s) && s@ == ops[k].value_type@
            } else {
                &&& spec_parse_on_off(desired) is None
                &&& e matches AppError::InvalidValue(n) && n@ == rule_name
            }
        }
}

/// What applying one rule must produce.  The privilege gate comes first:
/// an admin-gated rule without elevation is skipped as a successful no-op
/// under the skip policy, and is refused otherwise.  For an admissible
/// rule the operations are planned in order, and the first unplannable
/// one decides the error.
pub open spec fn spec_execute_result(
    r: Result<Vec<WriteOp>, AppError>,
    rule: Rule,
    rule_name: Seq<char>,
    desired: Seq<char>,
    is_elevated: bool,
    skip_inaccessible: bool,
) -> bool {
    if rule.admin_required && !is_elevated {
        if skip_inaccessible {
            r matches Ok(ws) && ws@.len() == 0
        } else {
            r matches Err(AppError::InsufficientPrivilege(n)) && n@ == rule_name
        }
    } else {
        match r {
            Ok(ws) => {
                &&& spec_ops_accept(rule.ops@, desired)
                &&& spec_write_views(ws@) == spec_writes_prefix(rule.ops@, desired)
            },
            Err(e) => spec_ops_err(e, rule.ops@, rule_name, desired),
        }
    }
}

/// Translates a rule into the subsystem writes that apply a desired value
/// to it.  The rule must be known to the database; the caller performs the
/// returned writes in order, so a failed write leaves the earlier ones
/// applied.
pub fn execute_rule(
    db: &RulesDatabase,
    rule_name: &str,
    desired_value: &str,
    is_elevated: bool,
    skip_inaccessible: bool,
) -> (r: Result<Vec<WriteOp>, AppError>)
    requires
        spec_find_rule(db.rules@, rule_name@) is Some,
    ensures
        spec_find_rule(db.rules@, rule_name@) matches Some(rule) ==> spec_execute_result(
            r,
            rule,
            rule_name@,
            desired_value@,
            is_elevated,
            skip_inaccessible,
        ),
{
    let rule = match find_rule(db, rule_name) {
        Some(rule) => rule,
        None => {
            proof {
                assert(false);
            }
            return Err(AppError::MalformedDocument);
        },
    };
    if rule.admin_required && !is_elevated {
        if skip_inaccessible {
            return Ok(Vec::new());
        } else {
            return Err(AppError::InsufficientPrivilege(rule_name.to_owned()));
        }
    }
    let ops = &rule.ops;
    let n = ops.len();
    let mut writes: Vec<WriteOp> = Vec::new();
    let mut i: usize = 0;
    while i < n
        invariant
            n == ops@.len(),
            i <= n,
            *ops == rule.ops,
            spec_find_rule(db.rules@, rule_name@) == Some(*rule),
            !(rule.admin_required && !is_elevated),
            forall|j: int| 0 <= j < i ==> spec_op_writable(#[trigger] ops@[j]),
            i > 0 ==> spec_parse_on_off(desired_value@) is Some,
            spec_write_views(writes@) == spec_writes_prefix(ops@.take(i as int), desired_value@),
        decreases n - i,
    {
        let op = &ops[i];
        if !str_eq(op.subsystem.as_str(), "registry") {
            return Err(AppError::UnsupportedSubsystem(op.subsystem.clone()));
        }
        let ok32 = str_eq(op.value_type.as_str(), "i32") || str_eq(op.value_type.as_str(), "u32");
        if !ok32 {
            return Err(AppError::UnsupportedDataType(op.value_type.clone()));
        }
        let desired = match OnOffType::from_str(desired_value) {
            Some(v) => v,
            None => {
                return Err(AppError::InvalidValue(rule_name.to_owned()));
            },
        };
        let logical = match op.reversed {
            Some(true) => desired.flipped(),
            _ => desired,
        };
        let w = WriteOp {
            path: op.path.clone(),
            value_name: op.value.clone(),
            data: logical.as_u32(),
        };
        writes.push(w);
        proof {
            broadcast use vstd::prelude::Seq::lemma_push_map_commute, vstd::prelude::Seq::lemma_map_take_succ;

            assert(spec_write_views(writes@) =~= spec_writes_prefix(
                ops@.take(i as int + 1),
                desired_value@,
            ));
        }
        i = i + 1;
    }
    proof {
        assert(ops@.take(n as int) =~= ops@);
    }
    Ok(writes)
}

/// Privilege-gate law: an admin-gated rule applied without elevation
/// performs no subsystem writes — under the skip policy the apply
/// succeeds with an empty plan, and without it the apply fails with
/// InsufficientPrivilege naming the rule, again with an empty plan.
pub proof fn lemma_privilege_gate(
    r: Result<Vec<WriteOp>, AppError>,
    rule: Rule,
    rule_name: Seq<char>,
    desired: Seq<char>,
    skip_inaccessible: bool,
)
    requires
        rule.admin_required,
        spec_execute_result(r, rule, rule_name, desired, false, skip_inaccessible),
    ensures
        skip_inaccessible ==> (r matches Ok(ws) && ws@.len() == 0),
        !skip_inaccessible ==> (r matches Err(AppError::InsufficientPrivilege(n)) && n@
            == rule_name),
{
}

/// Whether one settings entry must apply cleanly: its rule exists, and
/// either the privilege gate skips it or its operations all plan cleanly.
pub open spec fn spec_entry_ok(
    rules: Seq<Rule>,
    entry: (String, String),
    is_elevated: bool,
    skip_inaccessible: bool,
) -> bool {
    match spec_find_rule(rules, entry.0@) {
        Some(rule) => if rule.admin_required && !is_elevated {
            skip_inaccessible
        } else {
            spec_ops_accept(rule.ops@, entry.1@)
        },
        None => false,
    }
}

/// The error one settings entry must raise when it does not apply cleanly.
pub open spec fn spec_entry_err(
    e: AppError,
    rules: Seq<Rule>,
    entry: (String, String),
    is_elevated: bool,
    skip_inaccessible: bool,
) -> bool {
    match spec_find_rule(rules, entry.0@) {
        Some(rule) => if rule.admin_required && !is_elevated {
            &&& !skip_inaccessible
            &&& e matches AppError::InsufficientPrivilege(n) && n@ == entry.0@
        } else {
            spec_ops_err(e, rule.ops@, entry.0@, entry.1@)
        },
        None => false,
    }
}

/// The writes one settings entry contributes: none when its rule is gated
/// away, its planned writes otherwise.
pub open spec fn spec_entry_writes(
    rules: Seq<Rule>,
    entry: (String, String),
    is_elevated: bool,
) -> Seq<WritePlan> {
    match spec_find_rule(rules, entry.0@) {
        Some(rule) => if rule.admin_required && !is_elevated {
            Seq::<WritePlan>::empty()
        } else {
            spec_writes_prefix(rule.ops@, entry.1@)
        },
        None => Seq::<WritePlan>::empty(),
    }
}

/// The writes a settings document owes: each entry's contribution, in
/// document order.
pub open spec fn spec_settings_writes(
    rules: Seq<Rule>,
    entries: Seq<(String, String)>,
    is_elevated: bool,
) -> Seq<WritePlan>
    decreases entries.len(),
{
    if entries.len() == 0 {
        Seq::<WritePlan>::empty()
    } else {
        spec_settings_writes(rules, entries.drop_last(), is_elevated) + spec_entry_writes(
            rules,
            entries.last(),
            is_elevated,
        )
    }
}

/// Applies every entry of a settings document, in document order, and
/// returns the planned writes of all of them.  Every entry must name a
/// rule the database knows: an unknown name is the caller's error to rule
/// out first.  The first entry that does not apply cleanly decides the
/// error, and the entries before it decide nothing more.
pub fn apply_settings_file(
    db: &RulesDatabase,
    settings: &Settings,
    is_elevated: bool,
    skip_inaccessible: bool,
) -> (r: Result<Vec<WriteOp>, AppError>)
    requires
        forall|i: int|
            0 <= i < settings.settings@.len() ==> spec_find_rule(
                db.rules@,
                (#[trigger] settings.settings@[i]).0@,
            ) is Some,
    ensures
        match r {
            Ok(ws) => {
                &&& forall|i: int|
                    0 <= i < settings.settings@.len() ==> spec_entry_ok(
                        db.rules@,
                        #[trigger] settings.settings@[i],
                        is_elevated,
                        skip_inaccessible,
                    )
                &&& spec_write_views(ws@) == spec_settings_writes(
                    db.rules@,
                    settings.settings@,
                    is_elevated,
                )
            },
            Err(e) => exists|k: int|
                #![auto]
                {
                    &&& 0 <= k < settings.settings@.len()
                    &&& (forall|j: int|
                        0 <= j < k ==> spec_entry_ok(
                            db.rules@,
                            #[trigger] settings.settings@[j],
                            is_elevated,
                            skip_inaccessible,
                        ))
                    &&& spec_entry_err(
                        e,
                        db.rules@,
                        settings.settings@[k],
                        is_elevated,
                        skip_inaccessible,
                    )
                },
        },
{
    let entries = &settings.settings;
    let n = entries.len();
    let mut writes: Vec<WriteOp> = Vec::new();
    let mut i: usize = 0;
    while i < n
        invariant
            n == entries@.len(),
            i <= n,
            *entries == settings.settings,
            forall|j: int|
                0 <= j < n ==> spec_find_rule(db.rules@, (#[trigger] entries@[j]).0@) is Some,
            forall|j: int|
                0 <= j < i ==> spec_entry_ok(
                    db.rules@,
                    #[trigger] entries@[j],
                    is_elevated,
                    skip_inaccessible,
                ),
            spec_write_views(writes@) == spec_settings_writes(
                db.rules@,
                entries@.take(i as int),
                is_elevated,
            ),
        decreases n - i,
    {
        let pair = &entries[i];
        match execute_rule(db, pair.0.as_str(), pair.1.as_str(), is_elevated, skip_inaccessible) {
            Ok(mut ws) => {
                proof {
                    assert(entries@.take(i as int + 1).drop_last() =~= entries@.take(i as int));
                    assert(entries@.take(i as int + 1).last() == entries@[i as int]);
                }
                let ghost old_writes = writes@;
                let ghost new_part = ws@;
                writes.append(&mut ws);
                proof {
                    assert(writes@ == old_writes + new_part);
                    assert(spec_write_views(old_writes + new_part) =~= spec_write_views(old_writes)
                        + spec_write_views(new_part));
                    assert(spec_write_views(new_part) == spec_entry_writes(
                        db.rules@,
                        entries@[i as int],
                        is_elevated,
                    ));
                    assert(spec_write_views(writes@) =~= spec_settings_writes(
                        db.rules@,
                        entries@.take(i as int + 1),
                        is_elevated,
                    ));
                }
                i = i + 1;
            },
            Err(e) => {
                proof {
                    assert(spec_entry_err(
                        e,
                        db.rules@,
                        entries@[i as int],
                        is_elevated,
                        skip_inaccessible,
                    ));
                }
                return Err(e);
            },
        }
    }
    proof {
        assert(entries@.take(n as int) =~= entries@);
    }
    Ok(writes)
}

} // verus!
