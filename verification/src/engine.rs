use vstd::prelude::*;
use vstd::string::StringExecFns;

use crate::db::{Exec, Rule, RulesDatabase};
use crate::errors::AppError;
use crate::onoff::{spec_flip, spec_from_raw, spec_token, OnOffType};
use crate::settings::{file_marker, spec_settings_marker};
use crate::utils::str_eq;

verus! {

/// Whether the evaluation engine can read one operation: only the
/// "registry" subsystem with "i32" data.
pub open spec fn spec_op_readable(op: Exec) -> bool {
    &&& op.subsystem@ == "registry"@
    &&& op.value_type@ == "i32"@
}

/// Whether every operation of a sequence can be read.
pub open spec fn spec_ops_readable(ops: Seq<Exec>) -> bool {
    forall|j: int| 0 <= j < ops.len() ==> spec_op_readable(#[trigger] ops[j])
}

/// The logical value one operation reports for a raw subsystem value:
/// non-zero text reads On, "0" reads Off, and a reversed operation flips
/// the sense.
pub open spec fn spec_op_value(op: Exec, raw: Seq<char>) -> OnOffType {
    if op.reversed == Some(true) {
        spec_flip(spec_from_raw(raw))
    } else {
        spec_from_raw(raw)
    }
}

/// The reconciled current value of a rule: Off exactly when there is at
/// least one operation and every operation reads Off.  Any disagreement
/// reconciles to On — the documented tie-break — and a rule with no
/// operations reads On as the degenerate case of the same policy.
pub open spec fn spec_evaluate(ops: Seq<Exec>, raws: Seq<String>) -> OnOffType {
    if ops.len() > 0 && (forall|i: int|
        0 <= i < ops.len() ==> spec_op_value(#[trigger] ops[i], raws[i]@) == OnOffType::Off) {
        OnOffType::Off
    } else {
        OnOffType::On
    }
}

/// The error owed when a rule cannot be evaluated: the first unreadable
/// operation names it, its subsystem checked before its data type.
pub open spec fn spec_read_err(e: AppError, ops: Seq<Exec>) -> bool {
    exists|k: int|
        #![auto]
        {
            &&& 0 <= k < ops.len()
            &&& (forall|j: int| 0 <= j < k ==> spec_op_readable(#[trigger] ops[j]))
            &&& if ops[k].subsystem@ != "registry"@ {
                e matches AppError::UnsupportedSubsystem(s) && s@ == ops[k].subsystem@
            } else {
                &&& ops[k].value_type@ != "i32"@
                &&& e matches AppError::UnsupportedDataType(s) && s@ == ops[k].value_type@
            }
        }
}

/// Computes the current logical value of a rule from the raw values its
/// operations read, one raw value per operation in order, reconciling
/// them as `spec_evaluate` states.
pub fn evaluate_rule(ops: &Vec<Exec>, raws: &Vec<String>) -> (r: Result<OnOffType, AppError>)
    requires
        raws@.len() == ops@.len(),
    ensures
        match r {
            Ok(v) => spec_ops_readable(ops@) && v == spec_evaluate(ops@, raws@),
            Err(e) => spec_read_err(e, ops@),
        },
{
    let n = ops.len();
    let mut all_off = true;
    let mut i: usize = 0;
    while i < n
        invariant
            n == ops@.len(),
            raws@.len() == n,
            i <= n,
            forall|j: int| 0 <= j < i ==> spec_op_readable(#[trigger] ops@[j]),
            all_off == (forall|j: int|
                0 <= j < i ==> spec_op_value(#[trigger] ops@[j], raws@[j]@) == OnOffType::Off),
        decreases n - i,
    {
        let op = &ops[i];
        if !str_eq(op.subsystem.as_str(), "registry") {
            return Err(AppError::UnsupportedSubsystem(op.subsystem.clone()));
        }
        if !str_eq(op.value_type.as_str(), "i32") {
            return Err(AppError::UnsupportedDataType(op.value_type.clone()));
        }
        let mut value = OnOffType::from_string(raws[i].as_str());
        match op.reversed {
            Some(true) => {
                value = value.flipped();
            },
            _ => {},
        }
        let off_here = value == OnOffType::Off;
        proof {
            assert(value == spec_op_value(ops@[i as int], raws@[i as int]@));
        }
        all_off = all_off && off_here;
        i = i + 1;
    }
    if n > 0 && all_off {
        Ok(OnOffType::Off)
    } else {
        Ok(OnOffType::On)
    }
}

/// Reconciliation law: whenever some operation of a rule reads On — so in
/// particular when all of them do, and when they disagree — the rule's
/// reconciled value is On, never Off and never an error of the
/// reconciliation itself.
pub proof fn lemma_reconcile_on(ops: Seq<Exec>, raws: Seq<String>)
    requires
        ops.len() == raws.len(),
        exists|i: int|
            0 <= i < ops.len() && spec_op_value(#[trigger] ops[i], raws[i]@) == OnOffType::On,
    ensures
        spec_evaluate(ops, raws) == OnOffType::On,
{
    let i = choose|i: int|
        0 <= i < ops.len() && spec_op_value(#[trigger] ops[i], raws[i]@) == OnOffType::On;
    assert(spec_op_value(ops[i], raws[i]@) != OnOffType::Off);
}

/// Inversion law: a rule with a single reversed operation whose raw
/// subsystem value is non-zero evaluates to Off.
pub proof fn lemma_reversed_nonzero_reads_off(op: Exec, raw: String)
    requires
        op.reversed == Some(true),
        raw@ != "0"@,
    ensures
        spec_evaluate(seq![op], seq![raw]) == OnOffType::Off,
{
    assert(spec_op_value(seq![op][0], seq![raw][0]@) == OnOffType::Off);
}

/// One line of the exported settings body: four spaces, the rule's name,
/// a colon and the value, ended by a newline.
pub open spec fn spec_value_line(name: Seq<char>, value: Seq<char>) -> Seq<char> {
    "    "@ + name + ": "@ + value + "\n"@
}

/// The exported settings body: one line per rule, in database order, each
/// carrying the rule's reconciled current value.
pub open spec fn spec_print_values(rules: Seq<Rule>, raws: Seq<Vec<String>>) -> Seq<char>
    decreases rules.len(),
{
    if rules.len() == 0 {
        Seq::<char>::empty()
    } else {
        spec_print_values(rules.drop_last(), raws.drop_last()) + spec_value_line(
            rules.last().name@,
            spec_token(spec_evaluate(rules.last().ops@, raws.last()@)),
        )
    }
}

/// Whether every rule of a database can be evaluated.
pub open spec fn spec_all_readable(rules: Seq<Rule>) -> bool {
    forall|i: int| 0 <= i < rules.len() ==> spec_ops_readable((#[trigger] rules[i]).ops@)
}

/// The first rule that cannot be evaluated decides the error.
pub open spec fn spec_print_err(e: AppError, rules: Seq<Rule>) -> bool {
    exists|k: int|
        #![auto]
        {
            &&& 0 <= k < rules.len()
            &&& (forall|j: int| 0 <= j < k ==> spec_ops_readable((#[trigger] rules[j]).ops@))
            &&& spec_read_err(e, rules[k].ops@)
        }
}

/// Renders the current value of every rule as the body of a settings
/// document, from the raw values each rule's operations read (one raw
/// value per operation, one sequence per rule, in database order).
pub fn print_values(db: &RulesDatabase, raws: &Vec<Vec<String>>) -> (r: Result<String, AppError>)
    requires
        raws@.len() == db.rules@.len(),
        forall|i: int|
            0 <= i < raws@.len() ==> (#[trigger] raws@[i])@.len() == db.rules@[i].ops@.len(),
    ensures
        match r {
            Ok(s) => spec_all_readable(db.rules@) && s@ == spec_print_values(db.rules@, raws@),
            Err(e) => spec_print_err(e, db.rules@),
        },
{
    let mut out = String::new();
    let n = db.rules.len();
    let mut i: usize = 0;
    while i < n
        invariant
            n == db.rules@.len(),
            raws@.len() == n,
            i <= n,
            forall|j: int|
                0 <= j < n ==> (#[trigger] raws@[j])@.len() == db.rules@[j].ops@.len(),
            forall|j: int| 0 <= j < i ==> spec_ops_readable((#[trigger] db.rules@[j]).ops@),
            out@ == spec_print_values(db.rules@.take(i as int), raws@.take(i as int)),
        decreases n - i,
    {
        let rule = &db.rules[i];
        match evaluate_rule(&rule.ops, &raws[i]) {
            Ok(v) => {
                out.append("    ");
                out.append(rule.name.as_str());
                out.append(": ");
                out.append(v.as_str());
                out.append("\n");
                proof {
                    assert(db.rules@.take(i as int + 1).drop_last() =~= db.rules@.take(
                        i as int,
                    ));
                    assert(raws@.take(i as int + 1).drop_last() =~= raws@.take(i as int));
                    assert(db.rules@.take(i as int + 1).last() == db.rules@[i as int]);
                    assert(raws@.take(i as int + 1).last() == raws@[i as int]);
                    assert(out@ =~= spec_print_values(
                        db.rules@.take(i as int + 1),
                        raws@.take(i as int + 1),
                    ));
                }
                i = i + 1;
            },
            Err(e) => {
                return Err(e);
            },
        }
    }
    proof {
        assert(db.rules@.take(n as int) =~= db.rules@);
        assert(raws@.take(n as int) =~= raws@);
    }
    Ok(out)
}

/// The fixed header of an exported settings document: the marker line and
/// the opening of the settings section.
pub open spec fn spec_settings_header() -> Seq<char> {
    "file: "@ + spec_settings_marker() + "\n"@ + "settings: "@ + "\n"@
}

/// Renders the header of an exported settings document.
pub fn settings_header() -> (r: String)
    ensures
        r@ == spec_settings_header(),
{
    let mut out = String::new();
    out.append("file: ");
    out.append(file_marker());
    out.append("\n");
    out.append("settings: ");
    out.append("\n");
    proof {
        assert(out@ =~= spec_settings_header());
    }
    out
}

/// Exports the current values of every rule as a complete settings
/// document: the header followed by one line per rule.
pub fn export_settings(db: &RulesDatabase, raws: &Vec<Vec<String>>) -> (r: Result<
    String,
    AppError,
>)
    requires
        raws@.len() == db.rules@.len(),
        forall|i: int|
            0 <= i < raws@.len() ==> (#[trigger] raws@[i])@.len() == db.rules@[i].ops@.len(),
    ensures
        match r {
            Ok(s) => spec_all_readable(db.rules@) && s@ == spec_settings_header()
                + spec_print_values(db.rules@, raws@),
            Err(e) => spec_print_err(e, db.rules@),
        },
{
    let mut out = settings_header();
    match print_values(db, raws) {
        Ok(body) => {
            out.append(body.as_str());
            Ok(out)
        },
        Err(e) => Err(e),
    }
}

} // verus!
