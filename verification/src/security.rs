//! The security analyzer: a single-pass, flow-insensitive syntactic scan of a
//! parsed program for three vulnerability patterns — storage fields a
//! constructor leaves uninitialized, arithmetic outside a `checked_`/`safe_`
//! function, and contract state written after a potential external call.
//!
//! Every warning the analyzer can emit is pinned down by the spec functions
//! in this module: `program_warns` gives, for any program, the exact sequence
//! of warnings one analysis run appends.

use vstd::prelude::*;

use crate::ast::BinaryOp;
use crate::ast::Block;
use crate::ast::Contract;
use crate::ast::ContractMember;
use crate::ast::Expression;
use crate::ast::ExpressionKind;
use crate::ast::Function;
use crate::ast::Item;
use crate::ast::MatchArm;
use crate::ast::Program;
use crate::ast::Span;
use crate::ast::Statement;
use crate::ast::StorageField;
use crate::ast::StatementKind;
use crate::strutil::has_prefix;
use crate::strutil::str_eq;

verus! {

/// The abstract value of one warning: the variant, the characters of its
/// textual payload, and its location.
pub enum WarningView {
    PotentialOverflow { operation: Seq<char>, span: Span },
    UninitializedVariable { name: Seq<char>, span: Span },
    UncheckedArithmetic { operation: Seq<char>, span: Span },
    PotentialReentrancy { message: Seq<char>, span: Span },
}

/// A diagnostic the analyzer emits. The variant set is closed; each variant
/// carries its payload and the source location it points at.
#[derive(Clone, Debug)]
pub enum SecurityWarning {
    PotentialOverflow { operation: String, span: Span },
    UninitializedVariable { name: String, span: Span },
    UncheckedArithmetic { operation: String, span: Span },
    PotentialReentrancy { message: String, span: Span },
}

impl View for SecurityWarning {
    type V = WarningView;

    open spec fn view(&self) -> WarningView {
        match self {
            SecurityWarning::PotentialOverflow { operation, span } => (
                WarningView::PotentialOverflow { operation: operation@, span: *span }
            ),
            SecurityWarning::UninitializedVariable { name, span } => (
                WarningView::UninitializedVariable { name: name@, span: *span }
            ),
            SecurityWarning::UncheckedArithmetic { operation, span } => (
                WarningView::UncheckedArithmetic { operation: operation@, span: *span }
            ),
            SecurityWarning::PotentialReentrancy { message, span } => (
                WarningView::PotentialReentrancy { message: message@, span: *span }
            ),
        }
    }
}

/// The stable diagnostic code of a warning. The overflow and the unchecked
/// arithmetic variants share one code; downstream tooling depends on this
/// mapping, so it must not shift.
pub open spec fn code_of(w: WarningView) -> Seq<char> {
    match w {
        WarningView::PotentialOverflow { .. } => "SEC-003"@,
        WarningView::UninitializedVariable { .. } => "SEC-004"@,
        WarningView::UncheckedArithmetic { .. } => "SEC-003"@,
        WarningView::PotentialReentrancy { .. } => "SEC-002"@,
    }
}

/// The one-line human message of a warning, code included.
pub open spec fn message_of(w: WarningView) -> Seq<char> {
    match w {
        WarningView::PotentialOverflow { operation, .. } => (
            "["@ + code_of(w) + "] Potential Overflow in operation: "@ + operation
        ),
        WarningView::UninitializedVariable { name, .. } => (
            "["@ + code_of(w) + "] Uninitialized storage variable: "@ + name
        ),
        WarningView::UncheckedArithmetic { operation, .. } => (
            "["@ + code_of(w) + "] Unchecked arithmetic operation: "@ + operation
                + ". Consider using SafeMath."@
        ),
        WarningView::PotentialReentrancy { message, .. } => (
            "["@ + code_of(w) + "] Potential Reentrancy: "@ + message
        ),
    }
}

impl SecurityWarning {
    /// The stable diagnostic code, for tooling and suppression rules.
    pub fn code(&self) -> (r: &'static str)
        ensures
            r@ == code_of(self@),
    {
        match self {
            SecurityWarning::PotentialOverflow { .. } => "SEC-003",
            SecurityWarning::UninitializedVariable { .. } => "SEC-004",
            SecurityWarning::UncheckedArithmetic { .. } => "SEC-003",
            SecurityWarning::PotentialReentrancy { .. } => "SEC-002",
        }
    }

    /// The rendered one-line message, embedding the code.
    pub fn message(&self) -> (r: String)
        ensures
            r@ == message_of(self@),
    {
        let mut s = String::from_str("[");
        s.append(self.code());
        match self {
            SecurityWarning::PotentialOverflow { operation, .. } => {
                s.append("] Potential Overflow in operation: ");
                s.append(operation.as_str());
            }
            SecurityWarning::UninitializedVariable { name, .. } => {
                s.append("] Uninitialized storage variable: ");
                s.append(name.as_str());
            }
            SecurityWarning::UncheckedArithmetic { operation, .. } => {
                s.append("] Unchecked arithmetic operation: ");
                s.append(operation.as_str());
                s.append(". Consider using SafeMath.");
            }
            SecurityWarning::PotentialReentrancy { message, .. } => {
                s.append("] Potential Reentrancy: ");
                s.append(message.as_str());
            }
        }
        s
    }
}

// ----------------------------------------------------------------------
// The mathematical model of one analysis run.
//
// The traversal threads two pieces of state: the warning sequence, which
// only grows, and the per-function external-call flag. Each spec function
// below returns the pair (warnings appended, flag afterwards) for one node,
// given the safe-context bit of the enclosing function and the flag before.
// ----------------------------------------------------------------------

/// Does the function name opt out of unchecked-arithmetic warnings?
pub open spec fn is_safe_name(name: Seq<char>) -> bool {
    "checked_"@.is_prefix_of(name) || "safe_"@.is_prefix_of(name)
}

/// The safe-context bit derived from the function currently analyzed.
pub open spec fn safe_of(cf: Option<Seq<char>>) -> bool {
    match cf {
        Option::Some(n) => is_safe_name(n),
        Option::None => false,
    }
}

/// The text under which an operator appears in a warning.
pub open spec fn op_text(op: BinaryOp) -> Seq<char> {
    match op {
        BinaryOp::Add => "Add"@,
        BinaryOp::Sub => "Sub"@,
        BinaryOp::Mul => "Mul"@,
        BinaryOp::Div => "Div"@,
        BinaryOp::Eq => "Eq"@,
        BinaryOp::Lt => "Lt"@,
        BinaryOp::And => "And"@,
        BinaryOp::Or => "Or"@,
        BinaryOp::Assign => "Assign"@,
    }
}

/// The three operators that draw an unchecked-arithmetic warning.
pub open spec fn is_arith(op: BinaryOp) -> bool {
    op == BinaryOp::Add || op == BinaryOp::Sub || op == BinaryOp::Mul
}

pub open spec fn arith_warning(op: BinaryOp, span: Span) -> WarningView {
    WarningView::UncheckedArithmetic { operation: op_text(op), span }
}

pub open spec fn reentrancy_message() -> Seq<char> {
    "Detected state modification after potential external call"@
}

pub open spec fn reentrancy_warning(span: Span) -> WarningView {
    WarningView::PotentialReentrancy { message: reentrancy_message(), span }
}

pub open spec fn uninit_warning(field: Seq<char>, span: Span) -> WarningView {
    WarningView::UninitializedVariable { name: "Storage field '"@ + field + "'"@, span }
}

/// Is `e` a field access on the receiver, `self.<field>`?
pub open spec fn is_receiver_field(e: Expression) -> bool {
    match e.kind {
        ExpressionKind::FieldAccess { expr, .. } => match (*expr).kind {
            ExpressionKind::Identifier(name) => name@ == "self"@,
            _ => false,
        },
        _ => false,
    }
}

/// Does calling `e` count as a potential external call: the callee is a
/// field access on an identifier other than the receiver?
pub open spec fn is_external_callee(e: Expression) -> bool {
    match e.kind {
        ExpressionKind::FieldAccess { expr, .. } => match (*expr).kind {
            ExpressionKind::Identifier(name) => name@ != "self"@,
            _ => false,
        },
        _ => false,
    }
}

/// Warnings and flag after walking one expression.
pub open spec fn expr_res(e: Expression, safe: bool, ext: bool) -> (Seq<WarningView>, bool)
    decreases e, 0int,
{
    match e.kind {
        ExpressionKind::Binary { left, op, right } => {
            let w0 = if op == BinaryOp::Assign && ext && is_receiver_field(*left) {
                seq![reentrancy_warning(e.span)]
            } else {
                Seq::<WarningView>::empty()
            };
            let w1 = if is_arith(op) && !safe {
                seq![arith_warning(op, e.span)]
            } else {
                Seq::<WarningView>::empty()
            };
            let rl = expr_res(*left, safe, ext);
            let rr = expr_res(*right, safe, rl.1);
            (w0 + w1 + rl.0 + rr.0, rr.1)
        }
        ExpressionKind::Call { func, args } => {
            let ext0 = if is_external_callee(*func) {
                true
            } else {
                ext
            };
            let rf = expr_res(*func, safe, ext0);
            let ra = exprs_res(args@, 0, safe, rf.1);
            (rf.0 + ra.0, ra.1)
        }
        ExpressionKind::FieldAccess { expr, .. } => expr_res(*expr, safe, ext),
        ExpressionKind::Index { expr, index } => {
            let ro = expr_res(*expr, safe, ext);
            let ri = expr_res(*index, safe, ro.1);
            (ro.0 + ri.0, ri.1)
        }
        ExpressionKind::Match { value, arms } => {
            let rv = expr_res(*value, safe, ext);
            let ra = arms_res(arms@, 0, safe, rv.1);
            (rv.0 + ra.0, ra.1)
        }
        ExpressionKind::StructInit { fields, .. } => struct_fields_res(fields@, 0, safe, ext),
        ExpressionKind::Try(inner) => expr_res(*inner, safe, ext),
        ExpressionKind::GenericInst { target, .. } => expr_res(*target, safe, ext),
        _ => (Seq::<WarningView>::empty(), ext),
    }
}

/// Warnings and flag after walking the expressions from index `i` on.
pub open spec fn exprs_res(es: Seq<Expression>, i: int, safe: bool, ext: bool) -> (
    Seq<WarningView>,
    bool,
)
    decreases es, es.len() - i,
{
    if 0 <= i < es.len() {
        let r0 = expr_res(es[i], safe, ext);
        let r1 = exprs_res(es, i + 1, safe, r0.1);
        (r0.0 + r1.0, r1.1)
    } else {
        (Seq::<WarningView>::empty(), ext)
    }
}

/// Warnings and flag after walking the match-arm bodies from index `i` on.
pub open spec fn arms_res(arms: Seq<MatchArm>, i: int, safe: bool, ext: bool) -> (
    Seq<WarningView>,
    bool,
)
    decreases arms, arms.len() - i,
{
    if 0 <= i < arms.len() {
        let r0 = expr_res(arms[i].body, safe, ext);
        let r1 = arms_res(arms, i + 1, safe, r0.1);
        (r0.0 + r1.0, r1.1)
    } else {
        (Seq::<WarningView>::empty(), ext)
    }
}

/// Warnings and flag after walking the field initializers from index `i` on.
pub open spec fn struct_fields_res(fs: Seq<(String, Expression)>, i: int, safe: bool, ext: bool) -> (
    Seq<WarningView>,
    bool,
)
    decreases fs, fs.len() - i,
{
    if 0 <= i < fs.len() {
        let r0 = expr_res(fs[i].1, safe, ext);
        let r1 = struct_fields_res(fs, i + 1, safe, r0.1);
        (r0.0 + r1.0, r1.1)
    } else {
        (Seq::<WarningView>::empty(), ext)
    }
}

/// Warnings and flag after walking one statement.
pub open spec fn stmt_res(s: Statement, safe: bool, ext: bool) -> (Seq<WarningView>, bool)
    decreases s, 0int,
{
    match s.kind {
        StatementKind::Let { init, .. } => expr_res(init, safe, ext),
        StatementKind::Expr(e) => expr_res(e, safe, ext),
        StatementKind::Return(e_opt) => match e_opt {
            Option::Some(e) => expr_res(e, safe, ext),
            Option::None => (Seq::<WarningView>::empty(), ext),
        },
        StatementKind::If { condition, then_branch, else_branch } => {
            let rc = expr_res(condition, safe, ext);
            let rt = block_res(then_branch, safe, rc.1);
            match else_branch {
                Option::Some(eb) => {
                    let re = block_res(eb, safe, rt.1);
                    (rc.0 + rt.0 + re.0, re.1)
                }
                Option::None => (rc.0 + rt.0, rt.1),
            }
        }
        StatementKind::While { condition, body } => {
            let rc = expr_res(condition, safe, ext);
            let rb = block_res(body, safe, rc.1);
            (rc.0 + rb.0, rb.1)
        }
        StatementKind::For { start, end, body, .. } => {
            let rs = expr_res(start, safe, ext);
            let re = expr_res(end, safe, rs.1);
            let rb = block_res(body, safe, re.1);
            (rs.0 + re.0 + rb.0, rb.1)
        }
        _ => (Seq::<WarningView>::empty(), ext),
    }
}

/// Warnings and flag after walking the statements from index `i` on.
pub open spec fn stmts_res(ss: Seq<Statement>, i: int, safe: bool, ext: bool) -> (
    Seq<WarningView>,
    bool,
)
    decreases ss, ss.len() - i,
{
    if 0 <= i < ss.len() {
        let r0 = stmt_res(ss[i], safe, ext);
        let r1 = stmts_res(ss, i + 1, safe, r0.1);
        (r0.0 + r1.0, r1.1)
    } else {
        (Seq::<WarningView>::empty(), ext)
    }
}

/// Warnings and flag after walking a whole block.
pub open spec fn block_res(b: Block, safe: bool, ext: bool) -> (Seq<WarningView>, bool)
    decreases b, 0int,
{
    stmts_res(b.stmts@, 0, safe, ext)
}

/// The warnings one function contributes. The external-call flag starts
/// cleared, and the safe-context bit comes from the function's own name.
pub open spec fn function_warns(f: Function) -> Seq<WarningView> {
    block_res(f.body, is_safe_name(f.name@), false).0
}

// ----------------------------------------------------------------------
// Contract handling: collect declared storage fields, then check that the
// constructor initializes each of them.
// ----------------------------------------------------------------------

/// The character sequences a list of strings denotes.
pub open spec fn names_of(v: Seq<String>) -> Seq<Seq<char>> {
    v.map_values(|s: String| s@)
}

/// The names of a list of storage-field declarations, in order.
pub open spec fn field_names(fs: Seq<StorageField>) -> Seq<Seq<char>> {
    fs.map_values(|f: StorageField| f.name@)
}

/// The storage-field names one member declares, in order.
pub open spec fn member_field_names(m: ContractMember) -> Seq<Seq<char>> {
    match m {
        ContractMember::Storage(fs) => field_names(fs@),
        _ => Seq::<Seq<char>>::empty(),
    }
}

/// Append a name unless it is already present: declarations collapse.
pub open spec fn add_name(acc: Seq<Seq<char>>, n: Seq<char>) -> Seq<Seq<char>> {
    if acc.contains(n) {
        acc
    } else {
        acc.push(n)
    }
}

/// Fold `add_name` over the names from index `j` on.
pub open spec fn add_names(acc: Seq<Seq<char>>, ns: Seq<Seq<char>>, j: int) -> Seq<Seq<char>>
    decreases ns.len() - j,
{
    if 0 <= j < ns.len() {
        add_names(add_name(acc, ns[j]), ns, j + 1)
    } else {
        acc
    }
}

/// Fold the declared names of the members from index `i` on into `acc`.
pub open spec fn collect_fields(acc: Seq<Seq<char>>, ms: Seq<ContractMember>, i: int) -> Seq<
    Seq<char>,
>
    decreases ms.len() - i,
{
    if 0 <= i < ms.len() {
        collect_fields(add_names(acc, member_field_names(ms[i]), 0), ms, i + 1)
    } else {
        acc
    }
}

/// Every storage field the contract declares, first occurrence first,
/// duplicates collapsed.
pub open spec fn storage_fields(ms: Seq<ContractMember>) -> Seq<Seq<char>> {
    collect_fields(Seq::<Seq<char>>::empty(), ms, 0)
}

/// The field a top-level constructor statement initializes, when it is an
/// assignment of the shape `self.<field> = ...`.
pub open spec fn stmt_init_field(s: Statement) -> Option<Seq<char>> {
    match s.kind {
        StatementKind::Expr(e) => match e.kind {
            ExpressionKind::Binary { left, op, .. } => if op == BinaryOp::Assign {
                match (*left).kind {
                    ExpressionKind::FieldAccess { expr, field } => match (*expr).kind {
                        ExpressionKind::Identifier(name) => if name@ == "self"@ {
                            Option::Some(field@)
                        } else {
                            Option::None
                        },
                        _ => Option::None,
                    },
                    _ => Option::None,
                }
            } else {
                Option::None
            },
            _ => Option::None,
        },
        _ => Option::None,
    }
}

/// The fields the constructor's top-level statements from index `i` on
/// initialize. Nested branches are deliberately not entered.
pub open spec fn initialized_fields(ss: Seq<Statement>, i: int) -> Set<Seq<char>>
    decreases ss.len() - i,
{
    if 0 <= i < ss.len() {
        match stmt_init_field(ss[i]) {
            Option::Some(n) => initialized_fields(ss, i + 1).insert(n),
            Option::None => initialized_fields(ss, i + 1),
        }
    } else {
        Set::<Seq<char>>::empty()
    }
}

/// Where an uninitialized-storage warning points: the constructor's first
/// statement, or a default location for an empty body.
pub open spec fn init_span(b: Block) -> Span {
    if b.stmts@.len() > 0 {
        b.stmts@[0].span
    } else {
        Span { start: 1, end: 1 }
    }
}

/// One warning per declared field from index `i` on that was not initialized.
pub open spec fn uninit_warns(
    fields: Seq<Seq<char>>,
    inited: Set<Seq<char>>,
    span: Span,
    i: int,
) -> Seq<WarningView>
    decreases fields.len() - i,
{
    if 0 <= i < fields.len() {
        let rest = uninit_warns(fields, inited, span, i + 1);
        if inited.contains(fields[i]) {
            rest
        } else {
            seq![uninit_warning(fields[i], span)] + rest
        }
    } else {
        Seq::<WarningView>::empty()
    }
}

/// The uninitialized-storage batch one constructor produces.
pub open spec fn init_batch(fields: Seq<Seq<char>>, f: Function) -> Seq<WarningView> {
    uninit_warns(fields, initialized_fields(f.body.stmts@, 0), init_span(f.body), 0)
}

/// The batches of every constructor member from index `i` on, in order.
pub open spec fn init_batches(ms: Seq<ContractMember>, fields: Seq<Seq<char>>, i: int) -> Seq<
    WarningView,
>
    decreases ms.len() - i,
{
    if 0 <= i < ms.len() {
        (match ms[i] {
            ContractMember::Init(f) => init_batch(fields, f),
            _ => Seq::<WarningView>::empty(),
        }) + init_batches(ms, fields, i + 1)
    } else {
        Seq::<WarningView>::empty()
    }
}

/// Is there a constructor member at index `i` or later?
pub open spec fn has_init_from(ms: Seq<ContractMember>, i: int) -> bool {
    exists|j: int| i <= j < ms.len() && ms[j] is Init
}

pub open spec fn has_init(ms: Seq<ContractMember>) -> bool {
    has_init_from(ms, 0)
}

/// The warnings of the ordinary function members from index `i` on.
pub open spec fn member_fn_warns(ms: Seq<ContractMember>, i: int) -> Seq<WarningView>
    decreases ms.len() - i,
{
    if 0 <= i < ms.len() {
        (match ms[i] {
            ContractMember::Function(f) => function_warns(f),
            _ => Seq::<WarningView>::empty(),
        }) + member_fn_warns(ms, i + 1)
    } else {
        Seq::<WarningView>::empty()
    }
}

/// All warnings one contract contributes: its uninitialized-storage batch
/// first — for a contract without any constructor, every declared field is
/// reported — then the warnings of its ordinary functions in order.
pub open spec fn contract_warns(c: Contract) -> Seq<WarningView> {
    let fields = storage_fields(c.members@);
    let batches = if has_init(c.members@) {
        init_batches(c.members@, fields, 0)
    } else {
        uninit_warns(fields, Set::<Seq<char>>::empty(), Span { start: 1, end: 1 }, 0)
    };
    batches + member_fn_warns(c.members@, 0)
}

pub open spec fn item_warns(it: Item) -> Seq<WarningView> {
    match it {
        Item::Contract(c) => contract_warns(c),
        Item::Function(f) => function_warns(f),
        _ => Seq::<WarningView>::empty(),
    }
}

/// The warnings of the top-level items from index `i` on.
pub open spec fn items_warns(items: Seq<Item>, i: int) -> Seq<WarningView>
    decreases items.len() - i,
{
    if 0 <= i < items.len() {
        item_warns(items[i]) + items_warns(items, i + 1)
    } else {
        Seq::<WarningView>::empty()
    }
}

/// The exact warning sequence one `analyze_program` run appends.
pub open spec fn program_warns(p: Program) -> Seq<WarningView> {
    items_warns(p.items@, 0)
}

// ----------------------------------------------------------------------
// The analyzer.
// ----------------------------------------------------------------------

/// The analyzer instance: a warning accumulator plus the transient
/// per-function scan state (the external-call flag and the name of the
/// function currently analyzed).
pub struct SecurityAnalyzer {
    warnings: Vec<SecurityWarning>,
    external_call_seen: bool,
    current_function: Option<String>,
}

impl SecurityAnalyzer {
    /// The warnings accumulated so far, in emission order.
    pub closed spec fn warning_seq(&self) -> Seq<SecurityWarning> {
        self.warnings@
    }

    /// The abstract value of the accumulated warnings.
    pub open spec fn warnings_view(&self) -> Seq<WarningView> {
        self.warning_seq().map_values(|w: SecurityWarning| w@)
    }

    /// The per-function external-call flag.
    pub closed spec fn ext_seen(&self) -> bool {
        self.external_call_seen
    }

    /// The name of the function currently analyzed, if any.
    pub closed spec fn current_fn(&self) -> Option<Seq<char>> {
        match self.current_function {
            Option::Some(n) => Option::Some(n@),
            Option::None => Option::None,
        }
    }

    pub fn new() -> (r: SecurityAnalyzer)
        ensures
            r.warning_seq() == Seq::<SecurityWarning>::empty(),
            r.warnings_view() == Seq::<WarningView>::empty(),
            !r.ext_seen(),
            r.current_fn() is None,
    {
        let r = SecurityAnalyzer { warnings: Vec::new(), external_call_seen: false, current_function: None };
        proof {
            assert(r.warnings_view() =~= Seq::<WarningView>::empty());
        }
        r
    }

    /// A read-only view of all warnings accumulated so far, in emission
    /// order. Reading never changes the accumulator, so repeated calls on
    /// one instance return the same sequence.
    pub fn get_warnings(&self) -> (r: &[SecurityWarning])
        ensures
            r@ == self.warning_seq(),
    {
        self.warnings.as_slice()
    }

    /// The severity gate: no warning is critical at this stage.
    pub fn has_critical_warnings(&self) -> (r: bool)
        ensures
            !r,
    {
        false
    }

    fn push_warning(&mut self, w: SecurityWarning)
        ensures
            final(self).warning_seq() == old(self).warning_seq().push(w),
            final(self).warnings_view() == old(self).warnings_view().push(w@),
            final(self).ext_seen() == old(self).ext_seen(),
            final(self).current_fn() == old(self).current_fn(),
    {
        self.warnings.push(w);
        proof {
            assert(self.warnings_view() =~= old(self).warnings_view().push(w@));
        }
    }

    /// Is the function currently analyzed named as a safe context?
    fn in_safe_context(&self) -> (r: bool)
        ensures
            r == safe_of(self.current_fn()),
    {
        match &self.current_function {
            Some(name) => {
                let c = has_prefix(name.as_str(), "checked_");
                let s = has_prefix(name.as_str(), "safe_");
                c || s
            }
            None => false,
        }
    }
}

/// The operator text carried by an arithmetic warning.
fn op_name(op: &BinaryOp) -> (r: String)
    ensures
        r@ == op_text(*op),
{
    match op {
        BinaryOp::Add => String::from_str("Add"),
        BinaryOp::Sub => String::from_str("Sub"),
        BinaryOp::Mul => String::from_str("Mul"),
        BinaryOp::Div => String::from_str("Div"),
        BinaryOp::Eq => String::from_str("Eq"),
        BinaryOp::Lt => String::from_str("Lt"),
        BinaryOp::And => String::from_str("And"),
        BinaryOp::Or => String::from_str("Or"),
        BinaryOp::Assign => String::from_str("Assign"),
    }
}

fn is_receiver_field_exec(e: &Expression) -> (r: bool)
    ensures
        r == is_receiver_field(*e),
{
    match &e.kind {
        ExpressionKind::FieldAccess { expr, .. } => match &expr.kind {
            ExpressionKind::Identifier(name) => str_eq(name.as_str(), "self"),
            _ => false,
        },
        _ => false,
    }
}

fn is_external_callee_exec(e: &Expression) -> (r: bool)
    ensures
        r == is_external_callee(*e),
{
    match &e.kind {
        ExpressionKind::FieldAccess { expr, .. } => match &expr.kind {
            ExpressionKind::Identifier(name) => !str_eq(name.as_str(), "self"),
            _ => false,
        },
        _ => false,
    }
}

impl SecurityAnalyzer {
    /// Walk one expression: check it, then its children, left to right.
    #[verifier::rlimit(60)]
    fn analyze_expression(&mut self, expr: &Expression)
        ensures
            ({
                let r = expr_res(*expr, safe_of(old(self).current_fn()), old(self).ext_seen());
                &&& final(self).warnings_view() == old(self).warnings_view() + r.0
                &&& final(self).ext_seen() == r.1
                &&& final(self).current_fn() == old(self).current_fn()
            }),
        decreases *expr, 0int,
    {
        let ghost safe = safe_of(old(self).current_fn());
        match &expr.kind {
            ExpressionKind::Binary { left, op, right } => {
                if *op == BinaryOp::Assign && self.external_call_seen {
                    if is_receiver_field_exec(left) {
                        self.push_warning(
                            SecurityWarning::PotentialReentrancy {
                                message: String::from_str(
                                    "Detected state modification after potential external call",
                                ),
                                span: expr.span,
                            },
                        );
                    }
                }
                if *op == BinaryOp::Add || *op == BinaryOp::Sub || *op == BinaryOp::Mul {
                    if !self.in_safe_context() {
                        self.push_warning(
                            SecurityWarning::UncheckedArithmetic {
                                operation: op_name(op),
                                span: expr.span,
                            },
                        );
                    }
                }
                self.analyze_expression(left);
                self.analyze_expression(right);
                proof {
                    let r = expr_res(*expr, safe, old(self).ext_seen());
                    assert(self.warnings_view() =~= old(self).warnings_view() + r.0);
                }
            }
            ExpressionKind::Call { func, args } => {
                if is_external_callee_exec(func) {
                    self.external_call_seen = true;
                }
                self.analyze_expression(func);
                self.analyze_exprs(args, 0);
                proof {
                    let r = expr_res(*expr, safe, old(self).ext_seen());
                    assert(self.warnings_view() =~= old(self).warnings_view() + r.0);
                }
            }
            ExpressionKind::FieldAccess { expr: obj, .. } => {
                self.analyze_expression(obj);
            }
            ExpressionKind::Index { expr: obj, index } => {
                self.analyze_expression(obj);
                self.analyze_expression(index);
                proof {
                    let r = expr_res(*expr, safe, old(self).ext_seen());
                    assert(self.warnings_view() =~= old(self).warnings_view() + r.0);
                }
            }
            ExpressionKind::Match { value, arms } => {
                self.analyze_expression(value);
                self.analyze_arms(arms, 0);
                proof {
                    let r = expr_res(*expr, safe, old(self).ext_seen());
                    assert(self.warnings_view() =~= old(self).warnings_view() + r.0);
                }
            }
            ExpressionKind::StructInit { fields, .. } => {
                self.analyze_struct_fields(fields, 0);
            }
            ExpressionKind::Try(inner) => {
                self.analyze_expression(inner);
            }
            ExpressionKind::GenericInst { target, .. } => {
                self.analyze_expression(target);
            }
            _ => {
                proof {
                    assert(self.warnings_view() + Seq::<WarningView>::empty()
                        =~= self.warnings_view());
                }
            }
        }
    }

    /// Walk the call arguments from index `i` on.
    fn analyze_exprs(&mut self, es: &Vec<Expression>, i: usize)
        ensures
            ({
                let r = exprs_res(es@, i as int, safe_of(old(self).current_fn()), old(self).ext_seen());
                &&& final(self).warnings_view() == old(self).warnings_view() + r.0
                &&& final(self).ext_seen() == r.1
                &&& final(self).current_fn() == old(self).current_fn()
            }),
        decreases es@, es@.len() - i,
    {
        let ghost safe = safe_of(old(self).current_fn());
        if i < es.len() {
            let ghost pre_w = self.warnings_view();
            let ghost pre_e = self.ext_seen();
            self.analyze_expression(&es[i]);
            self.analyze_exprs(es, i + 1);
            proof {
                let r0 = expr_res(es@[i as int], safe, pre_e);
                let rest = exprs_res(es@, i + 1, safe, r0.1);
                assert(self.warnings_view() =~= pre_w + (r0.0 + rest.0));
            }
        } else {
            proof {
                assert(self.warnings_view() + Seq::<WarningView>::empty()
                    =~= self.warnings_view());
            }
        }
    }

    /// Walk the match-arm bodies from index `i` on.
    fn analyze_arms(&mut self, arms: &Vec<MatchArm>, i: usize)
        ensures
            ({
                let r = arms_res(arms@, i as int, safe_of(old(self).current_fn()), old(self).ext_seen());
                &&& final(self).warnings_view() == old(self).warnings_view() + r.0
                &&& final(self).ext_seen() == r.1
                &&& final(self).current_fn() == old(self).current_fn()
            }),
        decreases arms@, arms@.len() - i,
    {
        let ghost safe = safe_of(old(self).current_fn());
        if i < arms.len() {
            let ghost pre_w = self.warnings_view();
            let ghost pre_e = self.ext_seen();
            self.analyze_expression(&arms[i].body);
            self.analyze_arms(arms, i + 1);
            proof {
                let r0 = expr_res(arms@[i as int].body, safe, pre_e);
                let rest = arms_res(arms@, i + 1, safe, r0.1);
                assert(self.warnings_view() =~= pre_w + (r0.0 + rest.0));
            }
        } else {
            proof {
                assert(self.warnings_view() + Seq::<WarningView>::empty()
                    =~= self.warnings_view());
            }
        }
    }

    /// Walk the field initializers of a struct literal from index `i` on.
    fn analyze_struct_fields(&mut self, fs: &Vec<(String, Expression)>, i: usize)
        ensures
            ({
                let r = struct_fields_res(fs@, i as int, safe_of(old(self).current_fn()), old(self).ext_seen());
                &&& final(self).warnings_view() == old(self).warnings_view() + r.0
                &&& final(self).ext_seen() == r.1
                &&& final(self).current_fn() == old(self).current_fn()
            }),
        decreases fs@, fs@.len() - i,
    {
        let ghost safe = safe_of(old(self).current_fn());
        if i < fs.len() {
            let ghost pre_w = self.warnings_view();
            let ghost pre_e = self.ext_seen();
            self.analyze_expression(&fs[i].1);
            self.analyze_struct_fields(fs, i + 1);
            proof {
                let r0 = expr_res(fs@[i as int].1, safe, pre_e);
                let rest = struct_fields_res(fs@, i + 1, safe, r0.1);
                assert(self.warnings_view() =~= pre_w + (r0.0 + rest.0));
            }
        } else {
            proof {
                assert(self.warnings_view() + Seq::<WarningView>::empty()
                    =~= self.warnings_view());
            }
        }
    }
}

impl SecurityAnalyzer {
    /// Walk one statement, dispatching on its kind.
    #[verifier::spinoff_prover]
    #[verifier::rlimit(100)]
    fn analyze_statement(&mut self, stmt: &Statement)
        ensures
            ({
                let r = stmt_res(*stmt, safe_of(old(self).current_fn()), old(self).ext_seen());
                &&& final(self).warnings_view() == old(self).warnings_view() + r.0
                &&& final(self).ext_seen() == r.1
                &&& final(self).current_fn() == old(self).current_fn()
            }),
        decreases *stmt, 0int,
    {
        let ghost safe = safe_of(old(self).current_fn());
        match &stmt.kind {
            StatementKind::Let { init, .. } => {
                self.analyze_expression(init);
            }
            StatementKind::Expr(e) => {
                self.analyze_expression(e);
            }
            StatementKind::Return(e_opt) => {
                match e_opt {
                    Some(e) => {
                        self.analyze_expression(e);
                    }
                    None => {
                        proof {
                            assert(self.warnings_view() + Seq::<WarningView>::empty()
                                =~= self.warnings_view());
                        }
                    }
                }
            }
            StatementKind::If { condition, then_branch, else_branch } => {
                self.analyze_expression(condition);
                self.analyze_block(then_branch);
                match else_branch {
                    Some(eb) => {
                        self.analyze_block(eb);
                    }
                    None => {
                    }
                }
                proof {
                    let r = stmt_res(*stmt, safe, old(self).ext_seen());
                    assert(self.warnings_view() =~= old(self).warnings_view() + r.0);
                }
            }
            StatementKind::While { condition, body } => {
                self.analyze_expression(condition);
                self.analyze_block(body);
                proof {
                    let r = stmt_res(*stmt, safe, old(self).ext_seen());
                    assert(self.warnings_view() =~= old(self).warnings_view() + r.0);
                }
            }
            StatementKind::For { start, end, body, .. } => {
                self.analyze_expression(start);
                self.analyze_expression(end);
                self.analyze_block(body);
                proof {
                    let r = stmt_res(*stmt, safe, old(self).ext_seen());
                    assert(self.warnings_view() =~= old(self).warnings_view() + r.0);
                }
            }
            _ => {
                proof {
                    assert(self.warnings_view() + Seq::<WarningView>::empty()
                        =~= self.warnings_view());
                }
            }
        }
    }

    /// Walk the statements of a block from index `i` on.
    fn analyze_stmts(&mut self, ss: &Vec<Statement>, i: usize)
        ensures
            ({
                let r = stmts_res(ss@, i as int, safe_of(old(self).current_fn()), old(self).ext_seen());
                &&& final(self).warnings_view() == old(self).warnings_view() + r.0
                &&& final(self).ext_seen() == r.1
                &&& final(self).current_fn() == old(self).current_fn()
            }),
        decreases ss@, ss@.len() - i,
    {
        let ghost safe = safe_of(old(self).current_fn());
        if i < ss.len() {
            let ghost pre_w = self.warnings_view();
            let ghost pre_e = self.ext_seen();
            self.analyze_statement(&ss[i]);
            self.analyze_stmts(ss, i + 1);
            proof {
                let r0 = stmt_res(ss@[i as int], safe, pre_e);
                let rest = stmts_res(ss@, i + 1, safe, r0.1);
                assert(self.warnings_view() =~= pre_w + (r0.0 + rest.0));
            }
        } else {
            proof {
                assert(self.warnings_view() + Seq::<WarningView>::empty()
                    =~= self.warnings_view());
            }
        }
    }

    /// Walk every statement of a block in order.
    fn analyze_block(&mut self, block: &Block)
        ensures
            ({
                let r = block_res(*block, safe_of(old(self).current_fn()), old(self).ext_seen());
                &&& final(self).warnings_view() == old(self).warnings_view() + r.0
                &&& final(self).ext_seen() == r.1
                &&& final(self).current_fn() == old(self).current_fn()
            }),
        decreases *block, 1int,
    {
        self.analyze_stmts(&block.stmts, 0);
    }

    /// Analyze one function body: the external-call flag starts cleared and
    /// the function's own name decides the safe context.
    fn analyze_function(&mut self, func: &Function)
        ensures
            final(self).warnings_view() == old(self).warnings_view() + function_warns(*func),
            final(self).current_fn() is None,
    {
        self.external_call_seen = false;
        self.current_function = Some(func.name.clone());
        self.analyze_block(&func.body);
        self.current_function = None;
    }
}

/// Is `name` among the collected names?
fn contains_name(v: &Vec<String>, name: &str) -> (r: bool)
    ensures
        r == names_of(v@).contains(name@),
{
    let n: usize = v.len();
    let mut i: usize = 0;
    while i < n
        invariant
            i <= n,
            n == v@.len(),
            forall|j: int| 0 <= j < i ==> names_of(v@)[j] != name@,
        decreases n - i,
    {
        if str_eq(v[i].as_str(), name) {
            proof {
                assert(names_of(v@)[i as int] == name@);
            }
            return true;
        }
        i = i + 1;
    }
    proof {
        assert(!names_of(v@).contains(name@)) by {
            if names_of(v@).contains(name@) {
                let k = choose|k: int| 0 <= k < names_of(v@).len() && names_of(v@)[k] == name@;
            }
        }
    }
    false
}

/// Collect the names of the declarations from index `j` on, skipping those
/// already present.
fn collect_field_names(sf: &mut Vec<String>, fs: &Vec<StorageField>, j: usize)
    ensures
        names_of(final(sf)@) == add_names(names_of(old(sf)@), field_names(fs@), j as int),
    decreases fs@.len() - j,
{
    if j < fs.len() {
        let ghost pre = names_of(sf@);
        if !contains_name(sf, fs[j].name.as_str()) {
            sf.push(fs[j].name.clone());
            proof {
                assert(names_of(sf@) =~= pre.push(fs@[j as int].name@));
            }
        }
        proof {
            assert(field_names(fs@)[j as int] == fs@[j as int].name@);
            assert(names_of(sf@) == add_name(pre, field_names(fs@)[j as int]));
        }
        collect_field_names(sf, fs, j + 1);
    }
}

/// Collect every storage-field name the members from index `i` on declare.
fn collect_storage_fields(sf: &mut Vec<String>, members: &Vec<ContractMember>, i: usize)
    ensures
        names_of(final(sf)@) == collect_fields(names_of(old(sf)@), members@, i as int),
    decreases members@.len() - i,
{
    if i < members.len() {
        let ghost pre = names_of(sf@);
        match &members[i] {
            ContractMember::Storage(fs) => {
                collect_field_names(sf, fs, 0);
                proof {
                    assert(member_field_names(members@[i as int]) == field_names(fs@));
                }
            }
            _ => {
                proof {
                    assert(add_names(pre, member_field_names(members@[i as int]), 0) == pre);
                }
            }
        }
        collect_storage_fields(sf, members, i + 1);
    }
}

/// The storage field a statement initializes, when it has the shape
/// `self.<field> = ...`.
fn stmt_init_target(stmt: &Statement) -> (r: Option<String>)
    ensures
        ({
            let m = stmt_init_field(*stmt);
            match r {
                Option::Some(n) => m == Option::Some(n@),
                Option::None => m is None,
            }
        }),
{
    match &stmt.kind {
        StatementKind::Expr(e) => match &e.kind {
            ExpressionKind::Binary { left, op, .. } => {
                if *op == BinaryOp::Assign {
                    match &left.kind {
                        ExpressionKind::FieldAccess { expr: obj, field } => match &obj.kind {
                            ExpressionKind::Identifier(name) => {
                                if str_eq(name.as_str(), "self") {
                                    Some(field.clone())
                                } else {
                                    None
                                }
                            }
                            _ => None,
                        },
                        _ => None,
                    }
                } else {
                    None
                }
            }
            _ => None,
        },
        _ => None,
    }
}

impl SecurityAnalyzer {
    /// Record the fields the top-level statements from index `i` on assign.
    fn collect_init_from(&self, ss: &Vec<Statement>, i: usize, initialized: &mut Vec<String>)
        ensures
            names_of(final(initialized)@).to_set() == names_of(old(initialized)@).to_set()
                + initialized_fields(ss@, i as int),
        decreases ss@.len() - i,
    {
        if i < ss.len() {
            let ghost pre = names_of(initialized@).to_set();
            match stmt_init_target(&ss[i]) {
                Some(n) => {
                    let ghost nv = n@;
                    initialized.push(n);
                    proof {
                        assert(names_of(initialized@) =~= names_of(old(initialized)@).push(nv));
                        names_of(old(initialized)@).lemma_push_to_set_commute(nv);
                        assert(names_of(initialized@).to_set() =~= pre.insert(nv));
                    }
                    self.collect_init_from(ss, i + 1, initialized);
                    proof {
                        assert(names_of(initialized@).to_set()
                            =~= pre + initialized_fields(ss@, i as int));
                    }
                }
                None => {
                    self.collect_init_from(ss, i + 1, initialized);
                }
            }
        } else {
            proof {
                assert(names_of(initialized@).to_set()
                    =~= names_of(initialized@).to_set() + Set::<Seq<char>>::empty());
            }
        }
    }

    /// Scan the constructor's top-level statements for `self.<field> = ...`
    /// assignments; nested branches are deliberately not entered.
    fn collect_initializations(&self, block: &Block, initialized: &mut Vec<String>)
        ensures
            names_of(final(initialized)@).to_set() == names_of(old(initialized)@).to_set()
                + initialized_fields(block.stmts@, 0),
    {
        self.collect_init_from(&block.stmts, 0, initialized);
    }

    /// Warn about every declared field from index `i` on that is not among
    /// the initialized ones.
    fn emit_uninit_warns(&mut self, sf: &Vec<String>, inited: &Vec<String>, span: Span, i: usize)
        ensures
            final(self).warnings_view() == old(self).warnings_view()
                + uninit_warns(names_of(sf@), names_of(inited@).to_set(), span, i as int),
            final(self).ext_seen() == old(self).ext_seen(),
            final(self).current_fn() == old(self).current_fn(),
        decreases sf@.len() - i,
    {
        if i < sf.len() {
            let ghost pre_w = self.warnings_view();
            if !contains_name(inited, sf[i].as_str()) {
                let mut nm = String::from_str("Storage field '");
                nm.append(sf[i].as_str());
                nm.append("'");
                self.push_warning(SecurityWarning::UninitializedVariable { name: nm, span });
                proof {
                    assert(!names_of(inited@).to_set().contains(names_of(sf@)[i as int]));
                    assert(self.warnings_view()
                        =~= pre_w + seq![uninit_warning(names_of(sf@)[i as int], span)]);
                }
            } else {
                proof {
                    assert(names_of(inited@).to_set().contains(names_of(sf@)[i as int]));
                }
            }
            self.emit_uninit_warns(sf, inited, span, i + 1);
            proof {
                assert(self.warnings_view()
                    =~= pre_w + uninit_warns(names_of(sf@), names_of(inited@).to_set(), span, i as int));
            }
        } else {
            proof {
                assert(self.warnings_view() + Seq::<WarningView>::empty()
                    =~= self.warnings_view());
            }
        }
    }

    /// Check one constructor: every declared field it does not assign at the
    /// top level of its body draws a warning.
    fn emit_init_batch(&mut self, sf: &Vec<String>, f: &Function)
        ensures
            final(self).warnings_view() == old(self).warnings_view()
                + init_batch(names_of(sf@), *f),
            final(self).ext_seen() == old(self).ext_seen(),
            final(self).current_fn() == old(self).current_fn(),
    {
        let mut inited: Vec<String> = Vec::new();
        self.collect_initializations(&f.body, &mut inited);
        proof {
            assert(names_of(Seq::<String>::empty()).to_set() =~= Set::<Seq<char>>::empty());
            assert(names_of(inited@).to_set()
                =~= initialized_fields(f.body.stmts@, 0));
        }
        let span = if f.body.stmts.len() > 0 {
            f.body.stmts[0].span
        } else {
            Span::new(1, 1)
        };
        proof {
            assert(span == init_span(f.body));
        }
        self.emit_uninit_warns(sf, &inited, span, 0);
    }

    /// Handle every constructor member from index `i` on, and report whether
    /// one was present.
    fn analyze_init_members(&mut self, members: &Vec<ContractMember>, sf: &Vec<String>, i: usize) -> (had: bool)
        ensures
            final(self).warnings_view() == old(self).warnings_view()
                + init_batches(members@, names_of(sf@), i as int),
            had == has_init_from(members@, i as int),
            final(self).ext_seen() == old(self).ext_seen(),
            final(self).current_fn() == old(self).current_fn(),
        decreases members@.len() - i,
    {
        if i < members.len() {
            let ghost pre_w = self.warnings_view();
            match &members[i] {
                ContractMember::Init(f) => {
                    self.emit_init_batch(sf, f);
                    self.analyze_init_members(members, sf, i + 1);
                    proof {
                        let b0 = init_batch(names_of(sf@), members@[i as int]->Init_0);
                        let rest = init_batches(members@, names_of(sf@), i + 1);
                        assert(self.warnings_view() =~= pre_w + (b0 + rest));
                        assert(members@[i as int] is Init);
                    }
                    true
                }
                _ => {
                    let r = self.analyze_init_members(members, sf, i + 1);
                    proof {
                        let rest = init_batches(members@, names_of(sf@), i + 1);
                        assert(Seq::<WarningView>::empty() + rest =~= rest);
                        assert(r == has_init_from(members@, i as int)) by {
                            if has_init_from(members@, i as int) {
                                let j = choose|j: int|
                                    i <= j < members@.len() && members@[j] is Init;
                                assert(j >= i + 1);
                                assert(has_init_from(members@, i + 1));
                            }
                            if has_init_from(members@, i + 1) {
                                let j = choose|j: int|
                                    i + 1 <= j < members@.len() && members@[j] is Init;
                                assert(has_init_from(members@, i as int));
                            }
                        }
                    }
                    r
                }
            }
        } else {
            proof {
                assert(self.warnings_view() + Seq::<WarningView>::empty()
                    =~= self.warnings_view());
            }
            false
        }
    }

    /// Analyze every ordinary function member from index `i` on.
    fn analyze_member_functions(&mut self, members: &Vec<ContractMember>, i: usize)
        ensures
            final(self).warnings_view() == old(self).warnings_view()
                + member_fn_warns(members@, i as int),
        decreases members@.len() - i,
    {
        if i < members.len() {
            let ghost pre_w = self.warnings_view();
            match &members[i] {
                ContractMember::Function(f) => {
                    self.analyze_function(f);
                }
                _ => {}
            }
            self.analyze_member_functions(members, i + 1);
            proof {
                let rest = member_fn_warns(members@, i + 1);
                match members@[i as int] {
                    ContractMember::Function(f) => {
                        assert(self.warnings_view() =~= pre_w + (function_warns(f) + rest));
                    }
                    _ => {
                        assert(Seq::<WarningView>::empty() + rest =~= rest);
                    }
                }
            }
        } else {
            proof {
                assert(self.warnings_view() + Seq::<WarningView>::empty()
                    =~= self.warnings_view());
            }
        }
    }

    /// Analyze one contract: collect its declared storage fields, check
    /// constructor coverage, then analyze its ordinary functions.
    fn analyze_contract(&mut self, contract: &Contract)
        ensures
            final(self).warnings_view() == old(self).warnings_view()
                + contract_warns(*contract),
    {
        let mut sf: Vec<String> = Vec::new();
        collect_storage_fields(&mut sf, &contract.members, 0);
        proof {
            assert(names_of(Seq::<String>::empty()) =~= Seq::<Seq<char>>::empty());
            assert(names_of(sf@) == storage_fields(contract.members@));
        }
        let ghost ws0 = self.warnings_view();
        let had_init = self.analyze_init_members(&contract.members, &sf, 0);
        if !had_init {
            let no_inits: Vec<String> = Vec::new();
            proof {
                lemma_init_batches_empty(contract.members@, names_of(sf@), 0);
                assert(ws0 + Seq::<WarningView>::empty() =~= ws0);
                assert(names_of(Seq::<String>::empty()).to_set() =~= Set::<Seq<char>>::empty());
            }
            self.emit_uninit_warns(&sf, &no_inits, Span::new(1, 1), 0);
        }
        let ghost batch_w = self.warnings_view();
        self.analyze_member_functions(&contract.members, 0);
        proof {
            let fields = storage_fields(contract.members@);
            let batches = if has_init(contract.members@) {
                init_batches(contract.members@, fields, 0)
            } else {
                uninit_warns(fields, Set::<Seq<char>>::empty(), Span { start: 1, end: 1 }, 0)
            };
            assert(batch_w == ws0 + batches);
            assert(self.warnings_view() =~= ws0 + (batches + member_fn_warns(contract.members@, 0)));
        }
    }

    /// Analyze the top-level items from index `i` on.
    fn analyze_items(&mut self, items: &Vec<Item>, i: usize)
        ensures
            final(self).warnings_view() == old(self).warnings_view()
                + items_warns(items@, i as int),
        decreases items@.len() - i,
    {
        if i < items.len() {
            let ghost pre_w = self.warnings_view();
            match &items[i] {
                Item::Contract(c) => {
                    self.analyze_contract(c);
                }
                Item::Function(f) => {
                    self.analyze_function(f);
                }
                _ => {}
            }
            let ghost mid_w = self.warnings_view();
            self.analyze_items(items, i + 1);
            proof {
                let rest = items_warns(items@, i + 1);
                assert(mid_w == pre_w + item_warns(items@[i as int]));
                assert(self.warnings_view() =~= pre_w + (item_warns(items@[i as int]) + rest));
            }
        } else {
            proof {
                assert(self.warnings_view() + Seq::<WarningView>::empty()
                    =~= self.warnings_view());
            }
        }
    }

    /// Analyze a whole program: contract items get the two-phase contract
    /// handling, function items are analyzed as free functions, every other
    /// item is skipped. Each run appends exactly `program_warns(*program)`
    /// to the accumulator, so running the analyzer twice on one instance
    /// accumulates both runs' warnings, duplicates included.
    pub fn analyze_program(&mut self, program: &Program)
        ensures
            final(self).warnings_view() == old(self).warnings_view()
                + program_warns(*program),
    {
        self.analyze_items(&program.items, 0);
    }
}

/// Without any constructor member from index `i` on, no constructor batch is
/// produced there.
proof fn lemma_init_batches_empty(ms: Seq<ContractMember>, fields: Seq<Seq<char>>, i: int)
    requires
        !has_init_from(ms, i),
    ensures
        init_batches(ms, fields, i) == Seq::<WarningView>::empty(),
    decreases ms.len() - i,
{
    if 0 <= i < ms.len() {
        assert(!(ms[i] is Init));
        assert(!has_init_from(ms, i + 1)) by {
            if has_init_from(ms, i + 1) {
                let j = choose|j: int| i + 1 <= j < ms.len() && ms[j] is Init;
                assert(has_init_from(ms, i));
            }
        }
        lemma_init_batches_empty(ms, fields, i + 1);
        assert(init_batches(ms, fields, i)
            =~= Seq::<WarningView>::empty() + Seq::<WarningView>::empty());
        assert(Seq::<WarningView>::empty() + Seq::<WarningView>::empty()
            =~= Seq::<WarningView>::empty());
    }
}

proof fn lemma_expr_flag_monotonic(e: Expression, safe: bool)
    ensures
        expr_res(e, safe, true).1,
    decreases e, 0int,
{
    match e.kind {
        ExpressionKind::Binary { left, right, .. } => {
            lemma_expr_flag_monotonic(*left, safe);
            lemma_expr_flag_monotonic(*right, safe);
        }
        ExpressionKind::Call { func, args } => {
            lemma_expr_flag_monotonic(*func, safe);
            lemma_exprs_flag_monotonic(args@, 0, safe);
        }
        ExpressionKind::FieldAccess { expr, .. } => {
            lemma_expr_flag_monotonic(*expr, safe);
        }
        ExpressionKind::Index { expr, index } => {
            lemma_expr_flag_monotonic(*expr, safe);
            lemma_expr_flag_monotonic(*index, safe);
        }
        ExpressionKind::Match { value, arms } => {
            lemma_expr_flag_monotonic(*value, safe);
            lemma_arms_flag_monotonic(arms@, 0, safe);
        }
        ExpressionKind::StructInit { fields, .. } => {
            lemma_struct_fields_flag_monotonic(fields@, 0, safe);
        }
        ExpressionKind::Try(inner) => {
            lemma_expr_flag_monotonic(*inner, safe);
        }
        ExpressionKind::GenericInst { target, .. } => {
            lemma_expr_flag_monotonic(*target, safe);
        }
        _ => {
        }
    }
}

proof fn lemma_exprs_flag_monotonic(es: Seq<Expression>, i: int, safe: bool)
    ensures
        exprs_res(es, i, safe, true).1,
    decreases es, es.len() - i,
{
    if 0 <= i < es.len() {
        lemma_expr_flag_monotonic(es[i], safe);
        lemma_exprs_flag_monotonic(es, i + 1, safe);
    }
}

proof fn lemma_arms_flag_monotonic(arms: Seq<MatchArm>, i: int, safe: bool)
    ensures
        arms_res(arms, i, safe, true).1,
    decreases arms, arms.len() - i,
{
    if 0 <= i < arms.len() {
        lemma_expr_flag_monotonic(arms[i].body, safe);
        lemma_arms_flag_monotonic(arms, i + 1, safe);
    }
}

proof fn lemma_struct_fields_flag_monotonic(fs: Seq<(String, Expression)>, i: int, safe: bool)
    ensures
        struct_fields_res(fs, i, safe, true).1,
    decreases fs, fs.len() - i,
{
    if 0 <= i < fs.len() {
        lemma_expr_flag_monotonic(fs[i].1, safe);
        lemma_struct_fields_flag_monotonic(fs, i + 1, safe);
    }
}

proof fn lemma_stmt_flag_monotonic(s: Statement, safe: bool)
    ensures
        stmt_res(s, safe, true).1,
    decreases s, 0int,
{
    match s.kind {
        StatementKind::Let { init, .. } => {
            lemma_expr_flag_monotonic(init, safe);
        }
        StatementKind::Expr(e) => {
            lemma_expr_flag_monotonic(e, safe);
        }
        StatementKind::Return(e_opt) => {
            match e_opt {
                Option::Some(e) => {
                    lemma_expr_flag_monotonic(e, safe);
                }
                Option::None => {
                }
            }
        }
        StatementKind::If { condition, then_branch, else_branch } => {
            lemma_expr_flag_monotonic(condition, safe);
            lemma_block_flag_monotonic(then_branch, safe);
            match else_branch {
                Option::Some(eb) => {
                    lemma_block_flag_monotonic(eb, safe);
                }
                Option::None => {
                }
            }
        }
        StatementKind::While { condition, body } => {
            lemma_expr_flag_monotonic(condition, safe);
            lemma_block_flag_monotonic(body, safe);
        }
        StatementKind::For { start, end, body, .. } => {
            lemma_expr_flag_monotonic(start, safe);
            lemma_expr_flag_monotonic(end, safe);
            lemma_block_flag_monotonic(body, safe);
        }
        _ => {
        }
    }
}

proof fn lemma_stmts_flag_monotonic(ss: Seq<Statement>, i: int, safe: bool)
    ensures
        stmts_res(ss, i, safe, true).1,
    decreases ss, ss.len() - i,
{
    if 0 <= i < ss.len() {
        lemma_stmt_flag_monotonic(ss[i], safe);
        lemma_stmts_flag_monotonic(ss, i + 1, safe);
    }
}

proof fn lemma_block_flag_monotonic(b: Block, safe: bool)
    ensures
        block_res(b, safe, true).1,
    decreases b, 1int,
{
    lemma_stmts_flag_monotonic(b.stmts@, 0, safe);
}

/// The reentrancy tracker never resets within one function: once the
/// external-call flag is set, walking any remaining code of the body leaves
/// it set.
pub proof fn lemma_tracker_never_resets(b: Block, safe: bool)
    ensures
        block_res(b, safe, true).1,
{
    lemma_block_flag_monotonic(b, safe);
}

/// Is a top-level item one of the kinds this analyzer skips?
pub open spec fn is_ignored_item(it: Item) -> bool {
    !(it is Contract) && !(it is Function)
}

proof fn lemma_items_warns_ignored(items: Seq<Item>, i: int)
    requires
        forall|j: int| 0 <= j < items.len() ==> is_ignored_item(#[trigger] items[j]),
    ensures
        items_warns(items, i) == Seq::<WarningView>::empty(),
    decreases items.len() - i,
{
    if 0 <= i < items.len() {
        lemma_items_warns_ignored(items, i + 1);
        assert(is_ignored_item(items[i]));
        assert(item_warns(items[i]) + Seq::<WarningView>::empty()
            =~= Seq::<WarningView>::empty());
    }
}

/// A program whose items are all of the skipped kinds — no contract and no
/// free function among them — draws no warning at all.
pub proof fn lemma_ignored_program_warns_nothing(p: Program)
    requires
        forall|j: int| 0 <= j < p.items@.len() ==> is_ignored_item(#[trigger] p.items@[j]),
    ensures
        program_warns(p) == Seq::<WarningView>::empty(),
{
    lemma_items_warns_ignored(p.items@, 0);
}

impl Default for SecurityAnalyzer {
    fn default() -> (r: SecurityAnalyzer)
        ensures
            r.warning_seq() == Seq::<SecurityWarning>::empty(),
            r.warnings_view() == Seq::<WarningView>::empty(),
            !r.ext_seen(),
            r.current_fn() is None,
    {
        SecurityAnalyzer::new()
    }
}

} // verus!
