//! Interface descriptions and call arguments.
//!
//! An interface description declares a contract's callable functions and the
//! shape of their parameters. Call arguments are tagged values validated
//! against those shapes when a message is built. Numeric fields of query
//! responses travel as decimal strings; the parsers here decode them.

use vstd::prelude::*;
use vstd::string::StrSliceExecFns;

use crate::errors::ContractError;

verus! {

/// The shape of one declared parameter, and of one supplied argument.
#[derive(Clone, Copy, Debug, PartialEq, Eq, Structural)]
pub enum ParamKind {
    /// An address or other textual value.
    Text,
    /// An unsigned numeric value.
    Unsigned,
    /// A boolean flag.
    Flag,
}

/// One declared parameter of a callable function.
pub struct Param {
    pub name: String,
    pub kind: ParamKind,
}

/// One declared callable function: its name and its parameter shapes.
pub struct FunctionDecl {
    pub name: String,
    pub inputs: Vec<Param>,
}

/// A contract's interface description: the functions it can be called with.
pub struct ContractInterface {
    pub functions: Vec<FunctionDecl>,
}

/// One supplied call argument: a tagged value.
pub enum ArgValue {
    Text(String),
    Unsigned(u64),
    Flag(bool),
}

/// One named call argument.
pub struct NamedArg {
    pub name: String,
    pub value: ArgValue,
}

impl ArgValue {
    /// The shape this value satisfies.
    pub open spec fn spec_kind(self) -> ParamKind {
        match self {
            ArgValue::Text(_) => ParamKind::Text,
            ArgValue::Unsigned(_) => ParamKind::Unsigned,
            ArgValue::Flag(_) => ParamKind::Flag,
        }
    }

    /// The shape this value satisfies.
    pub fn kind(&self) -> (k: ParamKind)
        ensures
            k == self.spec_kind(),
    {
        match self {
            ArgValue::Text(_) => ParamKind::Text,
            ArgValue::Unsigned(_) => ParamKind::Unsigned,
            ArgValue::Flag(_) => ParamKind::Flag,
        }
    }
}

/// One supplied argument satisfies one declared parameter: same name, and a
/// value of the declared kind.
pub open spec fn arg_matches(p: Param, a: NamedArg) -> bool {
    a.name@ == p.name@ && a.value.spec_kind() == p.kind
}

/// The supplied arguments satisfy the declared parameter shape: one argument
/// per parameter, in order, with the declared name and kind.
pub open spec fn args_conform(params: Seq<Param>, args: Seq<NamedArg>) -> bool {
    &&& args.len() == params.len()
    &&& forall|i: int| 0 <= i < params.len() ==> #[trigger] arg_matches(params[i], args[i])
}

/// Decides whether the supplied arguments satisfy the declared shape.
pub fn args_conform_exec(params: &Vec<Param>, args: &Vec<NamedArg>) -> (r: bool)
    ensures
        r == args_conform(params@, args@),
{
    if params.len() != args.len() {
        return false;
    }
    let n = params.len();
    let mut i: usize = 0;
    while i < n
        invariant
            n == params@.len() == args@.len(),
            i <= n,
            forall|j: int| 0 <= j < i ==> #[trigger] arg_matches(params@[j], args@[j]),
        decreases n - i,
    {
        if !(args[i].name == params[i].name) {
            assert(!arg_matches(params@[i as int], args@[i as int]));
            return false;
        }
        if !(args[i].value.kind() == params[i].kind) {
            assert(!arg_matches(params@[i as int], args@[i as int]));
            return false;
        }
        assert(arg_matches(params@[i as int], args@[i as int]));
        i += 1;
    }
    true
}

/// The character is a decimal digit.
pub open spec fn is_dec_digit(c: char) -> bool {
    48 <= c as int && c as int <= 57
}

/// The numeric value of a decimal digit.
pub open spec fn digit_value(c: char) -> int {
    c as int - 48
}

/// Every character of the sequence is a decimal digit.
pub open spec fn all_dec_digits(s: Seq<char>) -> bool {
    forall|i: int| 0 <= i < s.len() ==> is_dec_digit(#[trigger] s[i])
}

/// The value of a sequence of decimal digits, most significant first.
pub open spec fn dec_value(s: Seq<char>) -> int
    decreases s.len(),
{
    if s.len() == 0 {
        0
    } else {
        dec_value(s.drop_last()) * 10 + digit_value(s.last())
    }
}

/// The value of a digit string is never negative.
proof fn lemma_dec_value_nonneg(s: Seq<char>)
    requires
        all_dec_digits(s),
    ensures
        dec_value(s) >= 0,
    decreases s.len(),
{
    if s.len() > 0 {
        assert(all_dec_digits(s.drop_last()));
        lemma_dec_value_nonneg(s.drop_last());
    }
}

/// A prefix of a digit string never exceeds the whole string's value.
proof fn lemma_dec_value_prefix_le(s: Seq<char>, k: int)
    requires
        all_dec_digits(s),
        0 <= k <= s.len(),
    ensures
        dec_value(s.subrange(0, k)) <= dec_value(s),
    decreases s.len() - k,
{
    if k == s.len() {
        assert(s.subrange(0, k) =~= s);
    } else {
        lemma_dec_value_prefix_le(s, k + 1);
        let longer = s.subrange(0, k + 1);
        assert(longer.drop_last() =~= s.subrange(0, k));
        assert(all_dec_digits(s.subrange(0, k)));
        lemma_dec_value_nonneg(s.subrange(0, k));
        assert(dec_value(longer) == dec_value(s.subrange(0, k)) * 10 + digit_value(s[k]));
        assert(dec_value(s.subrange(0, k)) * 10 >= dec_value(s.subrange(0, k))) by (nonlinear_arith)
            requires
                dec_value(s.subrange(0, k)) >= 0,
        ;
    }
}

/// A string is a decimal numeral for a value within `max`: nonempty, all
/// digits, value in range.
pub open spec fn is_dec_numeral_within(s: Seq<char>, max: int) -> bool {
    s.len() > 0 && all_dec_digits(s) && dec_value(s) <= max
}

/// Parses a decimal string into an unsigned 64-bit integer. Rejects an empty
/// string, any non-digit character, and a value over `u64::MAX`.
pub fn u64_from_dec_str(s: &str) -> (r: Result<u64, ContractError>)
    ensures
        r matches Ok(v) ==> is_dec_numeral_within(s@, u64::MAX as int) && v == dec_value(s@),
        r is Ok <==> is_dec_numeral_within(s@, u64::MAX as int),
        r matches Err(e) ==> e is Decode,
{
    let n = s.unicode_len();
    if n == 0 {
        return Err(ContractError::Decode { detail: s.to_owned() });
    }
    let mut acc: u64 = 0;
    let mut i: usize = 0;
    while i < n
        invariant
            n == s@.len(),
            0 < n,
            i <= n,
            forall|j: int| 0 <= j < i ==> is_dec_digit(#[trigger] s@[j]),
            acc == dec_value(s@.subrange(0, i as int)),
        decreases n - i,
    {
        let c = s.get_char(i);
        let cu = c as u32;
        if cu < 48 || cu > 57 {
            assert(!is_dec_digit(s@[i as int]));
            return Err(ContractError::Decode { detail: s.to_owned() });
        }
        let d: u64 = (cu - 48) as u64;
        proof {
            assert(all_dec_digits(s@.subrange(0, i as int)));
            lemma_dec_value_nonneg(s@.subrange(0, i as int));
        }
        if acc > (u64::MAX - d) / 10 {
            // The digits seen so far already exceed the range; by
            // monotonicity the whole string does too, if it is all digits.
            proof {
                let prefix = s@.subrange(0, i as int + 1);
                assert(prefix.drop_last() =~= s@.subrange(0, i as int));
                assert(dec_value(prefix) == acc * 10 + digit_value(s@[i as int]));
                assert(acc * 10 + d > u64::MAX) by (nonlinear_arith)
                    requires
                        acc > (u64::MAX - d) / 10,
                        0 <= d <= 9,
                        acc >= 0,
                ;
                if all_dec_digits(s@) {
                    lemma_dec_value_prefix_le(s@, i as int + 1);
                }
            }
            return Err(ContractError::Decode { detail: s.to_owned() });
        }
        proof {
            assert(acc * 10 + d <= u64::MAX) by (nonlinear_arith)
                requires
                    acc <= (u64::MAX - d) / 10,
                    0 <= d <= 9,
                    acc >= 0,
            ;
            let prefix = s@.subrange(0, i as int + 1);
            assert(prefix.drop_last() =~= s@.subrange(0, i as int));
            assert(prefix.last() == s@[i as int]);
        }
        acc = acc * 10 + d;
        i += 1;
    }
    proof {
        assert(s@.subrange(0, n as int) =~= s@);
    }
    Ok(acc)
}

/// Parses a decimal string into an unsigned 32-bit integer, as response
/// fields that carry small numbers as text are decoded. Rejects an empty
/// string, any non-digit character, and a value over `u32::MAX`.
pub fn u32_from_str(s: &str) -> (r: Result<u32, ContractError>)
    ensures
        r matches Ok(v) ==> is_dec_numeral_within(s@, u32::MAX as int) && v == dec_value(s@),
        r is Ok <==> is_dec_numeral_within(s@, u32::MAX as int),
        r matches Err(e) ==> e is Decode,
{
    match u64_from_dec_str(s) {
        Ok(v) => {
            if v <= u32::MAX as u64 {
                Ok(v as u32)
            } else {
                Err(ContractError::Decode { detail: s.to_owned() })
            }
        },
        Err(e) => Err(e),
    }
}

impl ContractInterface {
    /// The description is well formed: no function is declared twice.
    pub open spec fn wf(self) -> bool {
        forall|i: int, j: int|
            0 <= i < j < self.functions@.len() ==> #[trigger] self.functions@[i].name@
                != #[trigger] self.functions@[j].name@
    }

    /// The description declares a function of the given name.
    pub open spec fn declares(self, name: Seq<char>) -> bool {
        exists|i: int| 0 <= i < self.functions@.len() && #[trigger] self.functions@[i].name@ == name
    }

    /// The declaration of the given name (meaningful only where `declares`
    /// holds).
    pub open spec fn decl_of(self, name: Seq<char>) -> FunctionDecl {
        self.functions@[choose|i: int|
            0 <= i < self.functions@.len() && #[trigger] self.functions@[i].name@ == name]
    }

    /// Builds a well-formed interface description, rejecting one that
    /// declares the same function name twice.
    pub fn new(functions: Vec<FunctionDecl>) -> (r: Result<ContractInterface, ContractError>)
        ensures
            r matches Ok(iface) ==> iface.wf() && iface.functions@ == functions@,
            r is Err <==> exists|i: int, j: int|
                0 <= i < j < functions@.len() && #[trigger] functions@[i].name@
                    == #[trigger] functions@[j].name@,
            r matches Err(e) ==> e is Config,
    {
        let n = functions.len();
        let mut i: usize = 0;
        while i < n
            invariant
                n == functions@.len(),
                i <= n,
                forall|p: int, q: int|
                    0 <= p < q < i ==> #[trigger] functions@[p].name@
                        != #[trigger] functions@[q].name@,
                forall|p: int, q: int|
                    0 <= p < i && p < q < n ==> #[trigger] functions@[p].name@
                        != #[trigger] functions@[q].name@,
            decreases n - i,
        {
            let mut j: usize = i + 1;
            while j < n
                invariant
                    n == functions@.len(),
                    i < n,
                    i + 1 <= j <= n,
                    forall|q: int|
                        i < q < j ==> #[trigger] functions@[i as int].name@ != functions@[q].name@,
                decreases n - j,
            {
                if functions[i].name == functions[j].name {
                    return Err(ContractError::Config {
                        detail: functions[i].name.clone(),
                    });
                }
                j += 1;
            }
            i += 1;
        }
        Ok(ContractInterface { functions })
    }

    /// Looks up the declaration of a function name; the first (and, in a
    /// well-formed description, only) declaration wins.
    pub fn find_function(&self, name: &str) -> (r: Option<usize>)
        ensures
            r matches Some(i) ==> i < self.functions@.len() && self.functions@[i as int].name@
                == name@,
            r is Some <==> self.declares(name@),
    {
        let wanted: String = name.to_owned();
        let n = self.functions.len();
        let mut i: usize = 0;
        while i < n
            invariant
                n == self.functions@.len(),
                i <= n,
                wanted@ == name@,
                forall|j: int| 0 <= j < i ==> #[trigger] self.functions@[j].name@ != name@,
            decreases n - i,
        {
            if self.functions[i].name == wanted {
                return Some(i);
            }
            i += 1;
        }
        None
    }
}

} // verus!
