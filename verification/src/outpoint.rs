use vstd::prelude::*;
use vstd::string::StrSliceExecFns;
use vstd::string::StringExecFns;

verus! {

/// A reference to one spendable output: the identifier of the transaction
/// that created it, kept as its 64-digit hexadecimal text, and the index of
/// the output within that transaction.
#[derive(Debug)]
pub struct OutPointRef {
    pub txid: String,
    pub vout: u32,
}

/// The mathematical content of an `OutPointRef`.
#[verifier::ext_equal]
pub struct OutPointView {
    pub txid: Seq<char>,
    pub vout: u32,
}

impl View for OutPointRef {
    type V = OutPointView;

    open spec fn view(&self) -> OutPointView {
        OutPointView { txid: self.txid@, vout: self.vout }
    }
}

pub open spec fn is_hex_digit(c: char) -> bool {
    ('0' <= c && c <= '9') || ('a' <= c && c <= 'f') || ('A' <= c && c <= 'F')
}

pub open spec fn is_dec_digit(c: char) -> bool {
    '0' <= c && c <= '9'
}

/// Numeric value of a decimal digit character.
pub open spec fn digit_val(c: char) -> int {
    c as u32 - '0' as u32
}

/// A well-formed transaction identifier: exactly 64 hexadecimal characters.
pub open spec fn valid_txid_chars(s: Seq<char>) -> bool {
    s.len() == 64 && forall|i: int| 0 <= i < s.len() ==> is_hex_digit(#[trigger] s[i])
}

pub open spec fn all_dec_digits(s: Seq<char>) -> bool {
    forall|i: int| 0 <= i < s.len() ==> is_dec_digit(#[trigger] s[i])
}

/// Value of a decimal digit string, most significant digit first.
pub open spec fn dec_value(s: Seq<char>) -> int
    decreases s.len(),
{
    if s.len() == 0 {
        0
    } else {
        dec_value(s.drop_last()) * 10 + digit_val(s.last())
    }
}

/// A canonical output index: at least one digit, no redundant leading zero,
/// and a value that fits in `u32`.
pub open spec fn valid_vout_chars(s: Seq<char>) -> bool {
    &&& s.len() >= 1
    &&& all_dec_digits(s)
    &&& (s.len() == 1 || s[0] != '0')
    &&& dec_value(s) <= u32::MAX
}

/// A well-formed outpoint string: a 64-digit transaction identifier, one
/// colon, and a canonical output index.
pub open spec fn valid_outpoint_str(s: Seq<char>) -> bool {
    &&& s.len() >= 66
    &&& valid_txid_chars(s.subrange(0, 64))
    &&& s[64] == ':'
    &&& valid_vout_chars(s.subrange(65, s.len() as int))
}

/// What parsing an outpoint string yields: the coin reference, or nothing
/// when the text is not well formed.
pub open spec fn outpoint_of_str(s: Seq<char>) -> Option<OutPointView> {
    if valid_outpoint_str(s) {
        Some(
            OutPointView {
                txid: s.subrange(0, 64),
                vout: dec_value(s.subrange(65, s.len() as int)) as u32,
            },
        )
    } else {
        None
    }
}

impl OutPointView {
    /// A well-formed reference holds a 64-digit hexadecimal transaction
    /// identifier.
    pub open spec fn wf(&self) -> bool {
        valid_txid_chars(self.txid)
    }
}

impl OutPointRef {
    /// A well-formed reference holds a 64-digit hexadecimal transaction
    /// identifier.
    pub open spec fn wf(&self) -> bool {
        valid_txid_chars(self.txid@)
    }

    /// Builds a reference from its parts, accepting only a well-formed
    /// transaction identifier.
    pub fn new_checked(txid: String, vout: u32) -> (r: Option<OutPointRef>)
        ensures
            match r {
                Some(o) => valid_txid_chars(txid@) && o@ == (OutPointView { txid: txid@, vout })
                    && o.wf(),
                None => !valid_txid_chars(txid@),
            },
    {
        let n: usize = txid.as_str().unicode_len();
        if n != 64 {
            return None;
        }
        let mut i: usize = 0;
        while i < 64
            invariant
                i <= 64,
                txid@.len() == 64,
                forall|k: int| 0 <= k < i ==> is_hex_digit(#[trigger] txid@[k]),
            decreases 64 - i,
        {
            if !hex_digit(txid.as_str().get_char(i)) {
                return None;
            }
            i = i + 1;
        }
        Some(OutPointRef { txid, vout })
    }
}

impl Clone for OutPointRef {
    fn clone(&self) -> (r: Self)
        ensures
            r == *self,
    {
        OutPointRef { txid: self.txid.clone(), vout: self.vout }
    }
}

impl PartialEq for OutPointRef {
    fn eq(&self, other: &OutPointRef) -> (r: bool) {
        self.txid == other.txid && self.vout == other.vout
    }
}

impl vstd::std_specs::cmp::PartialEqSpecImpl for OutPointRef {
    open spec fn obeys_eq_spec() -> bool {
        true
    }

    open spec fn eq_spec(&self, other: &OutPointRef) -> bool {
        self.txid@ == other.txid@ && self.vout == other.vout
    }
}

/// Decides `is_hex_digit`.
fn hex_digit(c: char) -> (b: bool)
    ensures
        b == is_hex_digit(c),
{
    ('0' <= c && c <= '9') || ('a' <= c && c <= 'f') || ('A' <= c && c <= 'F')
}

/// Decides `is_dec_digit`.
fn dec_digit(c: char) -> (b: bool)
    ensures
        b == is_dec_digit(c),
{
    '0' <= c && c <= '9'
}

/// Ten to the power of `n`.
pub open spec fn pow10(n: nat) -> int
    decreases n,
{
    if n == 0 {
        1
    } else {
        10 * pow10((n - 1) as nat)
    }
}

proof fn lemma_pow10_mono(a: nat, b: nat)
    requires
        a <= b,
    ensures
        pow10(a) <= pow10(b),
        pow10(a) >= 1,
    decreases b,
{
    if b > 0 {
        if a == b {
            lemma_pow10_mono((a - 1) as nat, (b - 1) as nat);
        } else {
            lemma_pow10_mono(a, (b - 1) as nat);
        }
    }
}

/// A digit string's value is below ten to the power of its length.
proof fn lemma_dec_value_bounds(s: Seq<char>)
    requires
        all_dec_digits(s),
    ensures
        0 <= dec_value(s) < pow10(s.len()),
    decreases s.len(),
{
    if s.len() > 0 {
        assert(all_dec_digits(s.drop_last()));
        lemma_dec_value_bounds(s.drop_last());
    }
}

/// A digit string with no leading zero is at least ten to the power of its
/// length less one.
proof fn lemma_dec_value_lower(s: Seq<char>)
    requires
        all_dec_digits(s),
        s.len() >= 1,
        s[0] != '0',
    ensures
        dec_value(s) >= pow10((s.len() - 1) as nat),
    decreases s.len(),
{
    if s.len() == 1 {
        assert(is_dec_digit(s[0]));
        assert(digit_val(s[0]) >= 1);
    } else {
        assert(all_dec_digits(s.drop_last()));
        assert(s.drop_last()[0] == s[0]);
        lemma_dec_value_lower(s.drop_last());
        assert(pow10((s.len() - 1) as nat) == 10 * pow10((s.len() - 2) as nat));
        assert(is_dec_digit(s[s.len() - 1]));
        assert(digit_val(s.last()) >= 0);
        assert(dec_value(s) == dec_value(s.drop_last()) * 10 + digit_val(s.last()));
        assert(dec_value(s.drop_last()) * 10 >= pow10((s.len() - 2) as nat) * 10);
    }
}

/// Parses a `"txid:vout"` coin reference: 64 hexadecimal digits, one colon,
/// and a canonical decimal output index that fits in `u32`. Returns nothing
/// on any other shape.
pub fn outpoint_from_str(s: &str) -> (r: Option<OutPointRef>)
    ensures
        match outpoint_of_str(s@) {
            Some(op) => r matches Some(o) && o@ == op && o.wf(),
            None => r is None,
        },
{
    let n: usize = s.unicode_len();
    if n < 66 {
        return None;
    }
    let mut i: usize = 0;
    while i < 64
        invariant
            i <= 64,
            66 <= n == s@.len(),
            forall|k: int| 0 <= k < i ==> is_hex_digit(#[trigger] s@[k]),
        decreases 64 - i,
    {
        if !hex_digit(s.get_char(i)) {
            assert(s@.subrange(0, 64)[i as int] == s@[i as int]);
            return None;
        }
        i = i + 1;
    }
    assert(valid_txid_chars(s@.subrange(0, 64))) by {
        assert(forall|k: int|
            0 <= k < 64 ==> #[trigger] s@.subrange(0, 64)[k] == s@[k]);
    }
    if s.get_char(64) != ':' {
        return None;
    }
    let ghost vpart: Seq<char> = s@.subrange(65, s@.len() as int);
    let mut i: usize = 65;
    while i < n
        invariant
            65 <= i <= n == s@.len(),
            vpart == s@.subrange(65, s@.len() as int),
            forall|k: int| 65 <= k < i ==> is_dec_digit(#[trigger] s@[k]),
        decreases n - i,
    {
        if !dec_digit(s.get_char(i)) {
            assert(vpart[i - 65] == s@[i as int]);
            return None;
        }
        i = i + 1;
    }
    assert(all_dec_digits(vpart)) by {
        assert(forall|k: int| 0 <= k < vpart.len() ==> #[trigger] vpart[k] == s@[k + 65]);
    }
    if n - 65 > 1 && s.get_char(65) == '0' {
        assert(vpart[0] == s@[65]);
        return None;
    }
    if n - 65 > 10 {
        proof {
            lemma_dec_value_lower(vpart);
            lemma_pow10_mono(10, (vpart.len() - 1) as nat);
            reveal_with_fuel(pow10, 11);
        }
        return None;
    }
    let mut acc: u64 = 0;
    let mut i: usize = 65;
    while i < n
        invariant
            65 <= i <= n == s@.len(),
            n - 65 <= 10,
            vpart == s@.subrange(65, s@.len() as int),
            all_dec_digits(vpart),
            acc == dec_value(s@.subrange(65, i as int)),
        decreases n - i,
    {
        let c: char = s.get_char(i);
        assert(vpart[i - 65] == s@[i as int]);
        let d: u64 = (c as u32 - 48) as u64;
        proof {
            let prefix = s@.subrange(65, i as int);
            assert(all_dec_digits(prefix)) by {
                assert(forall|k: int|
                    0 <= k < prefix.len() ==> #[trigger] prefix[k] == vpart[k]);
            }
            lemma_dec_value_bounds(prefix);
            lemma_pow10_mono(prefix.len(), 10nat);
            reveal_with_fuel(pow10, 11);
            let next = s@.subrange(65, i + 1);
            assert(next.drop_last() =~= prefix);
            assert(next.last() == s@[i as int]);
        }
        acc = acc * 10 + d;
        i = i + 1;
    }
    assert(vpart =~= s@.subrange(65, n as int));
    if acc > 0xFFFF_FFFF {
        return None;
    }
    assert(valid_outpoint_str(s@));
    let txid: String = String::from_str(s.substring_char(0, 64));
    Some(OutPointRef { txid, vout: acc as u32 })
}

} // verus!
