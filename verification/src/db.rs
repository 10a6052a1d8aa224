use vstd::prelude::*;

use crate::doc::{
    doc_of, get_bool, get_field, get_list, get_str, parse_text, spec_as_bool, spec_field,
    spec_str_or_empty, Node,
};
use crate::errors::AppError;
use crate::utils::str_eq;

verus! {

/// A database of named rules, an immutable snapshot built once from a
/// source document.
#[derive(Debug, Clone)]
pub struct RulesDatabase {
    pub file: String,
    pub rules: Vec<Rule>,
}

/// A named, declarative mapping from one logical setting to one or more
/// subsystem operations.
#[derive(Debug, Clone)]
pub struct Rule {
    pub id: String,
    pub name: String,
    pub description: String,
    pub admin_required: bool,
    pub value: Value,
    pub ops: Vec<Exec>,
}

/// The semantic type tag of a rule's logical domain, e.g. "onoff".
#[derive(Debug, Clone)]
pub struct Value {
    pub value_type: String,
}

/// One subsystem-level operation: a read/write target plus data type and
/// optional sense inversion.
#[derive(Debug, Clone)]
pub struct Exec {
    pub subsystem: String,
    pub path: String,
    pub value: String,
    pub value_type: String,
    pub reversed: Option<bool>,
}

/// The marker every rule database document must carry in its `file` field.
pub open spec fn spec_database_id() -> Seq<char> {
    "redsigil.dfckr.db.v1"@
}

/// The marker every rule database document must carry in its `file` field.
pub fn database_id() -> (r: &'static str)
    ensures
        r@ == spec_database_id(),
{
    "redsigil.dfckr.db.v1"
}

/// The boolean a node holds, or a default when it holds none.
pub open spec fn spec_bool_or(n: Node, default: bool) -> bool {
    match spec_as_bool(n) {
        Some(b) => b,
        None => default,
    }
}

/// How one operation is read from its document entry: every field defaults
/// to the empty string when absent or ill-typed, and `reversed` is present
/// only when the entry holds a boolean.
pub open spec fn spec_op_matches(op: Exec, n: Node) -> bool {
    &&& op.subsystem@ == spec_str_or_empty(spec_field(n, "subsystem"@))
    &&& op.path@ == spec_str_or_empty(spec_field(n, "path"@))
    &&& op.value@ == spec_str_or_empty(spec_field(n, "value"@))
    &&& op.value_type@ == spec_str_or_empty(spec_field(n, "type"@))
    &&& op.reversed == spec_as_bool(spec_field(n, "reversed"@))
}

/// The operation entries of a rule's document entry; an absent or
/// ill-typed `exec` field defaults to no operations.
pub open spec fn spec_exec_nodes(entry: Node) -> Seq<Node> {
    match spec_field(entry, "exec"@) {
        Node::List(items) => items@,
        _ => Seq::<Node>::empty(),
    }
}

/// How one rule is read from its document entry, under the permissive
/// policy: missing fields default rather than fail, so every entry yields
/// a rule, possibly with an empty name.
pub open spec fn spec_rule_matches(rule: Rule, entry: Node) -> bool {
    &&& rule.id@ == spec_str_or_empty(spec_field(entry, "rule"@))
    &&& rule.name@ == spec_str_or_empty(spec_field(entry, "arg"@))
    &&& rule.description@ == spec_str_or_empty(spec_field(entry, "description"@))
    &&& rule.admin_required == spec_bool_or(spec_field(entry, "admin_required"@), false)
    &&& rule.value.value_type@ == spec_str_or_empty(
        spec_field(spec_field(entry, "value"@), "type"@),
    )
    &&& rule.ops@.len() == spec_exec_nodes(entry).len()
    &&& forall|i: int|
        0 <= i < rule.ops@.len() ==> spec_op_matches(rule.ops@[i], spec_exec_nodes(entry)[i])
}

/// Exactly when loading a database document must succeed, and what it must
/// yield: the `file` marker must equal the expected constant, the `rules`
/// section must be a sequence, and the database then holds one rule per
/// entry, in source order.
pub open spec fn spec_db_result(r: Result<RulesDatabase, AppError>, docn: Node) -> bool {
    let marker = spec_str_or_empty(spec_field(docn, "file"@));
    if marker != spec_database_id() {
        r matches Err(AppError::FormatMismatch(m)) && m@ == marker
    } else {
        match spec_field(docn, "rules"@) {
            Node::List(entries) => {
                &&& r matches Ok(db)
                &&& db.file@ == marker
                &&& db.rules@.len() == entries@.len()
                &&& forall|i: int|
                    0 <= i < entries@.len() ==> spec_rule_matches(db.rules@[i], entries@[i])
            },
            _ => r matches Err(AppError::MalformedDocument),
        }
    }
}

fn parse_exec(items: &Vec<Node>) -> (r: Vec<Exec>)
    ensures
        r@.len() == items@.len(),
        forall|i: int| 0 <= i < items@.len() ==> spec_op_matches(r@[i], items@[i]),
{
    let mut ops: Vec<Exec> = Vec::new();
    let n = items.len();
    let mut i: usize = 0;
    while i < n
        invariant
            n == items@.len(),
            i <= n,
            ops@.len() == i,
            forall|j: int| 0 <= j < i ==> spec_op_matches(ops@[j], items@[j]),
        decreases n - i,
    {
        let entry = &items[i];
        let op = Exec {
            subsystem: get_str(entry, "subsystem"),
            path: get_str(entry, "path"),
            value: get_str(entry, "value"),
            value_type: get_str(entry, "type"),
            reversed: get_bool(entry, "reversed"),
        };
        ops.push(op);
        i = i + 1;
    }
    ops
}

fn parse_rule(entry: &Node) -> (r: Rule)
    ensures
        spec_rule_matches(r, *entry),
{
    let value_type = match get_field(entry, "value") {
        Some(v) => get_str(v, "type"),
        None => String::new(),
    };
    let ops = match get_list(entry, "exec") {
        Some(items) => parse_exec(items),
        None => Vec::new(),
    };
    Rule {
        id: get_str(entry, "rule"),
        name: get_str(entry, "arg"),
        description: get_str(entry, "description"),
        admin_required: match get_bool(entry, "admin_required") {
            Some(b) => b,
            None => false,
        },
        value: Value { value_type },
        ops,
    }
}

/// Builds a database from an already parsed document tree.
pub fn parse_database(docn: &Node) -> (r: Result<RulesDatabase, AppError>)
    ensures
        spec_db_result(r, *docn),
{
    let file = get_str(docn, "file");
    if !str_eq(file.as_str(), database_id()) {
        return Err(AppError::FormatMismatch(file));
    }
    match get_list(docn, "rules") {
        None => Err(AppError::MalformedDocument),
        Some(entries) => {
            let n = entries.len();
            let mut rules: Vec<Rule> = Vec::new();
            let mut i: usize = 0;
            while i < n
                invariant
                    n == entries@.len(),
                    i <= n,
                    rules@.len() == i,
                    forall|j: int| 0 <= j < i ==> spec_rule_matches(rules@[j], entries@[j]),
                decreases n - i,
            {
                let rule = parse_rule(&entries[i]);
                rules.push(rule);
                i = i + 1;
            }
            Ok(RulesDatabase { file, rules })
        },
    }
}

/// Reads a rule database from source text.  The text is parsed into a
/// document tree; a text that does not parse is a malformed document, and
/// the tree is then checked and extracted as `spec_db_result` states.
pub fn read_database(contents: &str) -> (r: Result<RulesDatabase, AppError>)
    ensures
        match doc_of(contents@) {
            Some(docn) => spec_db_result(r, docn),
            None => r matches Err(AppError::MalformedDocument),
        },
{
    match parse_text(contents) {
        Some(docn) => parse_database(&docn),
        None => Err(AppError::MalformedDocument),
    }
}

/// The rule a name selects: the last rule carrying that name, mirroring the
/// load-time policy that a later duplicate entry overwrites an earlier one.
pub open spec fn spec_find_rule(rules: Seq<Rule>, name: Seq<char>) -> Option<Rule>
    decreases rules.len(),
{
    if rules.len() == 0 {
        None
    } else if rules.last().name@ == name {
        Some(rules.last())
    } else {
        spec_find_rule(rules.drop_last(), name)
    }
}

/// Looks a rule up by name, later duplicates taking precedence.
pub fn find_rule<'a>(db: &'a RulesDatabase, name: &str) -> (r: Option<&'a Rule>)
    ensures
        match r {
            Some(rule) => spec_find_rule(db.rules@, name@) == Some(*rule),
            None => spec_find_rule(db.rules@, name@) is None,
        },
{
    let n = db.rules.len();
    let mut i: usize = n;
    proof {
        assert(db.rules@.take(n as int) =~= db.rules@);
    }
    while i > 0
        invariant
            i <= n,
            n == db.rules@.len(),
            spec_find_rule(db.rules@, name@) == spec_find_rule(db.rules@.take(i as int), name@),
        decreases i,
    {
        i = i - 1;
        let rule = &db.rules[i];
        if str_eq(rule.name.as_str(), name) {
            proof {
                assert(db.rules@.take(i as int + 1).last() == db.rules@[i as int]);
            }
            return Some(rule);
        }
        proof {
            assert(db.rules@.take(i as int + 1).drop_last() =~= db.rules@.take(i as int));
        }
    }
    proof {
        assert(db.rules@.take(0) =~= Seq::<Rule>::empty());
    }
    None
}

} // verus!
