use vstd::prelude::*;
use vstd::string::*;

verus! {

/// A method descriptor: `(`, the argument types, `)`, the return type.
pub const DESCRIPTOR_PATTERN: &'static str = r"^\((?P<arguments>[^()]+)\)(?P<return>[^()]+)$";

/// The capture group of `DESCRIPTOR_PATTERN` that holds the argument types.
pub const ARGUMENTS_GROUP: &'static str = "arguments";

/// A character of the class `[^()]`: anything but a parenthesis, so class names
/// may hold digits, `$`, `_` and other characters.
pub open spec fn is_argument_char(c: char) -> bool {
    c != '(' && c != ')'
}

/// A character of the return-type class, the same `[^()]`.
pub open spec fn is_return_char(c: char) -> bool {
    is_argument_char(c)
}

/// `d` matches `DESCRIPTOR_PATTERN` with the closing parenthesis at `k`.
pub open spec fn splits_at(d: Seq<char>, k: int) -> bool {
    &&& 2 <= k && k + 1 < d.len()
    &&& d[0] == '('
    &&& d[k] == ')'
    &&& forall|i: int| 1 <= i < k ==> is_argument_char(d[i])
    &&& forall|i: int| k < i < d.len() ==> is_return_char(d[i])
}

/// What the `arguments` group captures when `d` matches `DESCRIPTOR_PATTERN`.
pub open spec fn descriptor_arguments(d: Seq<char>) -> Option<Seq<char>> {
    if exists|k: int| splits_at(d, k) {
        Some(d.subrange(1, choose|k: int| splits_at(d, k)))
    } else {
        None
    }
}

/// A match of `DESCRIPTOR_PATTERN` places the closing parenthesis at one position only.
pub proof fn lemma_split_unique(d: Seq<char>, k1: int, k2: int)
    requires
        splits_at(d, k1),
        splits_at(d, k2),
    ensures
        k1 == k2,
{
    if k1 < k2 {
        assert(is_argument_char(d[k1]));
    } else if k2 < k1 {
        assert(is_argument_char(d[k2]));
    }
}

/// Slots taken by one type character outside a class name.
pub open spec fn char_arity(c: char) -> nat {
    if c == 'B' || c == 'C' || c == 'F' || c == 'I' || c == 'S' || c == 'Z' {
        1
    } else if c == 'J' || c == 'D' {
        2
    } else {
        0
    }
}

/// Slots taken by the argument types `s`; `in_class` holds inside an `L...;` class name.
pub open spec fn arity_from(s: Seq<char>, in_class: bool) -> nat
    decreases s.len(),
{
    if s.len() == 0 {
        0
    } else if in_class {
        arity_from(s.drop_first(), s[0] != ';')
    } else if s[0] == 'L' {
        1 + arity_from(s.drop_first(), true)
    } else {
        char_arity(s[0]) + arity_from(s.drop_first(), false)
    }
}

/// Slots taken by the arguments of the method descriptor `d`: 0 when `d` is not
/// of the descriptor shape.
pub open spec fn descriptor_arity(d: Seq<char>) -> nat {
    match descriptor_arguments(d) {
        Some(a) => arity_from(a, false),
        None => 0,
    }
}

/// `x` capped at `usize::MAX`.
pub open spec fn saturated(x: int) -> int {
    if x <= usize::MAX {
        x
    } else {
        usize::MAX as int
    }
}

/// Relies on regex::Regex::new, Regex::captures and Captures::name: for the
/// descriptor pattern the `arguments` group is what lies between the parentheses.
#[verifier::external_body]
fn capture_group(pattern: &str, group: &str, text: &str) -> (r: Option<String>)
    requires
        pattern == DESCRIPTOR_PATTERN,
        group == ARGUMENTS_GROUP,
    ensures
        r is Some <==> descriptor_arguments(text@) is Some,
        r is Some ==> r->0@ == descriptor_arguments(text@)->0,
{
    let re = regex::Regex::new(pattern).ok()?;
    let captures = re.captures(text)?;
    captures.name(group).map(|m| m.as_str().to_string())
}

/// The number of operand slots that the arguments of `descriptor` take:
/// one for each of `B C F I S Z` and each `L...;`, two for each of `J D`.
/// The count saturates at `usize::MAX`.
pub fn determine_number_of_arguments(descriptor: &str) -> (r: usize)
    ensures
        r as int == saturated(descriptor_arity(descriptor@) as int),
{
    let arguments = match capture_group(DESCRIPTOR_PATTERN, ARGUMENTS_GROUP, descriptor) {
        Some(a) => a,
        None => {
            return 0;
        },
    };
    let text = arguments.as_str();
    let n = text.unicode_len();
    let ghost s = text@;
    let mut i: usize = 0;
    let mut count: usize = 0;
    let mut in_class = false;
    assert(s.subrange(0, s.len() as int) =~= s);
    while i < n
        invariant
            n == s.len(),
            s == text@,
            i <= n,
            count as int == saturated(arity_from(s, false) - arity_from(s.subrange(i as int, n as int), in_class)),
        decreases n - i,
    {
        let c = text.get_char(i);
        assert(s.subrange(i as int, n as int).drop_first() =~= s.subrange(i + 1, n as int));
        let step: usize = if in_class {
            in_class = c != ';';
            0
        } else if c == 'L' {
            in_class = true;
            1
        } else if c == 'B' || c == 'C' || c == 'F' || c == 'I' || c == 'S' || c == 'Z' {
            1
        } else if c == 'J' || c == 'D' {
            2
        } else {
            0
        };
        count = count.saturating_add(step);
        i = i + 1;
    }
    assert(s.subrange(i as int, n as int).len() == 0);
    count
}

} // verus!
