use vstd::prelude::*;
use crate::errors::ResolveError;

verus! {

/// Largest wei value the decoder accepts: the greatest value representable
/// in a signed 128-bit integer, the bound the service has always used for
/// upstream balances.
pub const MAX_WEI: u128 = 0x7fffffffffffffffffffffffffffffff;

/// A character is a base-16 digit (either case).
pub open spec fn is_hex_digit(c: char) -> bool {
    ('0' as int <= c as int && c as int <= '9' as int) || ('a' as int <= c as int && c as int
        <= 'f' as int) || ('A' as int <= c as int && c as int <= 'F' as int)
}

/// Numeric value of a base-16 digit.
pub open spec fn hex_digit_val(c: char) -> nat
    recommends
        is_hex_digit(c),
{
    if '0' as int <= c as int && c as int <= '9' as int {
        (c as int - '0' as int) as nat
    } else if 'a' as int <= c as int && c as int <= 'f' as int {
        (c as int - 'a' as int + 10) as nat
    } else if 'A' as int <= c as int && c as int <= 'F' as int {
        (c as int - 'A' as int + 10) as nat
    } else {
        0
    }
}

/// Every character of the sequence is a base-16 digit.
pub open spec fn all_hex_digits(s: Seq<char>) -> bool {
    forall|i: int| 0 <= i < s.len() ==> is_hex_digit(#[trigger] s[i])
}

/// The non-negative integer written in base 16 by the sequence,
/// most-significant digit first.
pub open spec fn hex_seq_val(s: Seq<char>) -> nat
    recommends
        all_hex_digits(s),
    decreases s.len(),
{
    if s.len() == 0 {
        0
    } else {
        hex_seq_val(s.drop_last()) * 16 + hex_digit_val(s.last())
    }
}

/// The string starts with the two characters `0x`.
pub open spec fn has_hex_prefix(s: Seq<char>) -> bool {
    s.len() >= 2 && s[0] == '0' && s[1] == 'x'
}

/// What decoding an upstream result string yields: `MalformedResponse`
/// without the `0x` prefix; `NumericDecodeError` when the payload after the
/// prefix is empty, holds a non-hex character, or exceeds `MAX_WEI`; the
/// wei value otherwise.
pub open spec fn spec_decode_balance(s: Seq<char>) -> Result<u128, ResolveError> {
    if !has_hex_prefix(s) {
        Err(ResolveError::MalformedResponse)
    } else {
        let h = s.skip(2);
        if h.len() == 0 || !all_hex_digits(h) {
            Err(ResolveError::NumericDecodeError)
        } else if hex_seq_val(h) > MAX_WEI {
            Err(ResolveError::NumericDecodeError)
        } else {
            Ok(hex_seq_val(h) as u128)
        }
    }
}

/// The value of a prefix of a digit string never exceeds the value of the
/// whole string.
pub proof fn lemma_hex_prefix_le(s: Seq<char>, k: int)
    requires
        0 <= k <= s.len(),
    ensures
        hex_seq_val(s.take(k)) <= hex_seq_val(s),
    decreases s.len(),
{
    if k == s.len() {
        assert(s.take(k) =~= s);
    } else {
        let s0 = s.drop_last();
        lemma_hex_prefix_le(s0, k);
        assert(s0.take(k) =~= s.take(k));
        assert(hex_seq_val(s0) * 16 >= hex_seq_val(s0));
    }
}

/// Digit value of a character, or nothing when it is not a base-16 digit.
fn hex_char_value(c: char) -> (r: Option<u8>)
    ensures
        r is Some <==> is_hex_digit(c),
        r is Some ==> r->0 == hex_digit_val(c),
{
    let u = c as u32;
    if 48 <= u && u <= 57 {
        Some((u - 48) as u8)
    } else if 97 <= u && u <= 102 {
        Some((u - 87) as u8)
    } else if 65 <= u && u <= 70 {
        Some((u - 55) as u8)
    } else {
        None
    }
}

/// The upstream node's response to a balance query: the JSON-RPC envelope
/// fields and the `result` payload, a `0x`-prefixed hex string carrying the
/// balance in wei.
pub struct GetEthBalanceResp {
    pub jsonrpc: String,
    pub id: i32,
    pub result: String,
}

impl GetEthBalanceResp {
    /// Decode the `result` field into a wei value, exactly as
    /// `spec_decode_balance` describes.
    pub fn decode_balance(&self) -> (r: Result<u128, ResolveError>)
        ensures
            r == spec_decode_balance(self.result@),
    {
        let s = self.result.as_str();
        let n = s.unicode_len();
        if n < 2 {
            return Err(ResolveError::MalformedResponse);
        }
        if s.get_char(0) != '0' || s.get_char(1) != 'x' {
            return Err(ResolveError::MalformedResponse);
        }
        if n == 2 {
            return Err(ResolveError::NumericDecodeError);
        }
        let ghost h = self.result@.skip(2);
        let mut acc: u128 = 0;
        let mut i: usize = 2;
        while i < n
            invariant
                2 <= i <= n,
                3 <= n == self.result@.len(),
                s@ == self.result@,
                has_hex_prefix(self.result@),
                h == self.result@.skip(2),
                all_hex_digits(h.take(i as int - 2)),
                acc == hex_seq_val(h.take(i as int - 2)),
                acc <= MAX_WEI,
            decreases n - i,
        {
            let c = s.get_char(i);
            proof {
                assert(h[i as int - 2] == self.result@[i as int]);
            }
            match hex_char_value(c) {
                None => {
                    proof {
                        assert(!is_hex_digit(h[i as int - 2]));
                    }
                    return Err(ResolveError::NumericDecodeError);
                },
                Some(v) => {
                    let ghost j = i as int - 2;
                    proof {
                        assert(h.take(j + 1).drop_last() =~= h.take(j));
                        assert(h.take(j + 1).last() == h[j]);
                        assert(hex_seq_val(h.take(j + 1)) == acc * 16 + hex_digit_val(h[j]));
                    }
                    if acc > (MAX_WEI - v as u128) / 16 {
                        proof {
                            assert(acc * 16 + hex_digit_val(h[j]) > MAX_WEI) by (nonlinear_arith)
                                requires
                                    acc as int > (MAX_WEI as int - v as int) / 16,
                                    0 <= v < 16,
                                    hex_digit_val(h[j]) == v as nat,
                                    0 <= acc as int,
                            ;
                            if all_hex_digits(h) {
                                lemma_hex_prefix_le(h, j + 1);
                            }
                        }
                        return Err(ResolveError::NumericDecodeError);
                    }
                    proof {
                        assert(acc * 16 + v as u128 <= MAX_WEI) by (nonlinear_arith)
                            requires
                                acc as int <= (MAX_WEI as int - v as int) / 16,
                                0 <= v < 16,
                                0 <= acc as int,
                        ;
                        assert forall|t: int| 0 <= t < j + 1 implies is_hex_digit(
                            #[trigger] h.take(j + 1)[t],
                        ) by {
                            if t < j {
                                assert(h.take(j + 1)[t] == h.take(j)[t]);
                            } else {
                                assert(h.take(j + 1)[t] == h[j]);
                            }
                        }
                    }
                    acc = acc * 16 + v as u128;
                },
            }
            i += 1;
        }
        proof {
            assert(h.take(n as int - 2) =~= h);
        }
        Ok(acc)
    }
}

/// The character writing a single base-16 digit, lower case.
pub open spec fn hex_digit_char(d: nat) -> char
    recommends
        d < 16,
{
    if d == 0 {
        '0'
    } else if d == 1 {
        '1'
    } else if d == 2 {
        '2'
    } else if d == 3 {
        '3'
    } else if d == 4 {
        '4'
    } else if d == 5 {
        '5'
    } else if d == 6 {
        '6'
    } else if d == 7 {
        '7'
    } else if d == 8 {
        '8'
    } else if d == 9 {
        '9'
    } else if d == 10 {
        'a'
    } else if d == 11 {
        'b'
    } else if d == 12 {
        'c'
    } else if d == 13 {
        'd'
    } else if d == 14 {
        'e'
    } else {
        'f'
    }
}

/// The base-16 digit string of a non-negative integer, most-significant
/// digit first, without leading zeros (a single `0` for zero).
pub open spec fn spec_hex_digits(w: nat) -> Seq<char>
    decreases w,
{
    if w < 16 {
        seq![hex_digit_char(w)]
    } else {
        spec_hex_digits(w / 16).push(hex_digit_char(w % 16))
    }
}

/// The digit string of `w` is made of hex digits and reads back as `w`.
pub proof fn lemma_hex_digits_value(w: nat)
    ensures
        all_hex_digits(spec_hex_digits(w)),
        hex_seq_val(spec_hex_digits(w)) == w,
        spec_hex_digits(w).len() >= 1,
    decreases w,
{
    if w < 16 {
        let s = spec_hex_digits(w);
        assert(s.drop_last() =~= Seq::<char>::empty());
        assert(hex_seq_val(Seq::<char>::empty()) == 0);
        assert(s.last() == hex_digit_char(w));
        assert(hex_seq_val(s) == hex_seq_val(s.drop_last()) * 16 + hex_digit_val(s.last()));
        assert(is_hex_digit(hex_digit_char(w)));
        assert(hex_digit_val(hex_digit_char(w)) == w);
    } else {
        lemma_hex_digits_value(w / 16);
        let s0 = spec_hex_digits(w / 16);
        let c = hex_digit_char(w % 16);
        assert(s0.push(c).drop_last() =~= s0);
        assert(s0.push(c).last() == c);
        assert(is_hex_digit(c));
        assert(hex_digit_val(c) == w % 16);
        assert(hex_seq_val(s0.push(c)) == (w / 16) * 16 + (w % 16));
        vstd::arithmetic::div_mod::lemma_fundamental_div_mod(w as int, 16);
        assert forall|t: int| 0 <= t < s0.push(c).len() implies is_hex_digit(
            #[trigger] s0.push(c)[t],
        ) by {
            if t < s0.len() {
                assert(s0.push(c)[t] == s0[t]);
            }
        }
    }
}

/// String slice holding a single base-16 digit.
fn hex_digit_str(d: u8) -> (r: &'static str)
    requires
        d < 16,
    ensures
        r@ =~= seq![hex_digit_char(d as nat)],
{
    proof {
        reveal_strlit("0");
        reveal_strlit("1");
        reveal_strlit("2");
        reveal_strlit("3");
        reveal_strlit("4");
        reveal_strlit("5");
        reveal_strlit("6");
        reveal_strlit("7");
        reveal_strlit("8");
        reveal_strlit("9");
        reveal_strlit("a");
        reveal_strlit("b");
        reveal_strlit("c");
        reveal_strlit("d");
        reveal_strlit("e");
        reveal_strlit("f");
    }
    match d {
        0 => "0",
        1 => "1",
        2 => "2",
        3 => "3",
        4 => "4",
        5 => "5",
        6 => "6",
        7 => "7",
        8 => "8",
        9 => "9",
        10 => "a",
        11 => "b",
        12 => "c",
        13 => "d",
        14 => "e",
        _ => "f",
    }
}

/// Append the base-16 digit string of `w` to `out`.
fn append_hex_digits(w: u128, out: &mut String)
    ensures
        final(out)@ == old(out)@ + spec_hex_digits(w as nat),
    decreases w,
{
    if w >= 16 {
        append_hex_digits(w / 16, out);
    }
    let d = (w % 16) as u8;
    out.append(hex_digit_str(d));
    proof {
        if w < 16 {
            assert(old(out)@ + seq![hex_digit_char(w as nat)] =~= old(out)@ + spec_hex_digits(
                w as nat,
            ));
        } else {
            assert((old(out)@ + spec_hex_digits((w / 16) as nat)) + seq![
                hex_digit_char((w % 16) as nat),
            ] =~= old(out)@ + spec_hex_digits(w as nat));
        }
    }
}

/// Write a wei value as a `0x`-prefixed lower-case hex string, the form the
/// upstream node uses for balances.
pub fn encode_hex(wei: u128) -> (r: String)
    ensures
        r@ == seq!['0', 'x'] + spec_hex_digits(wei as nat),
{
    let mut out = String::from_str("0x");
    proof {
        reveal_strlit("0x");
        assert(out@ =~= seq!['0', 'x']);
    }
    append_hex_digits(wei, &mut out);
    out
}

/// Round trip: the decoder applied to the encoding of any representable
/// wei value returns exactly that value.
pub proof fn lemma_decode_encode_round_trip(w: u128)
    requires
        w <= MAX_WEI,
    ensures
        spec_decode_balance(seq!['0', 'x'] + spec_hex_digits(w as nat)) == Ok::<
            u128,
            ResolveError,
        >(w),
{
    let s = seq!['0', 'x'] + spec_hex_digits(w as nat);
    lemma_hex_digits_value(w as nat);
    assert(s.skip(2) =~= spec_hex_digits(w as nat));
    assert(has_hex_prefix(s));
}

/// Any result string without the `0x` prefix decodes to `MalformedResponse`.
pub proof fn lemma_decode_rejects_missing_prefix(s: Seq<char>)
    requires
        !has_hex_prefix(s),
    ensures
        spec_decode_balance(s) == Err::<u128, ResolveError>(ResolveError::MalformedResponse),
{
}

/// Any result string whose payload after the prefix holds a non-hex
/// character decodes to `NumericDecodeError`.
pub proof fn lemma_decode_rejects_non_hex(s: Seq<char>, i: int)
    requires
        has_hex_prefix(s),
        2 <= i < s.len(),
        !is_hex_digit(s[i]),
    ensures
        spec_decode_balance(s) == Err::<u128, ResolveError>(ResolveError::NumericDecodeError),
{
    assert(s.skip(2)[i - 2] == s[i]);
    assert(!all_hex_digits(s.skip(2)));
}

/// The character must be escaped inside a JSON string: the quote, the
/// backslash, and every control character.
pub open spec fn must_escape(c: char) -> bool {
    c == '"' || c == '\\' || (c as int) < 32
}

/// The JSON escape sequence written for one character: the short escapes
/// where JSON has them, `\u00XX` for the other control characters, the
/// character itself otherwise.
pub open spec fn spec_escaped_char(c: char) -> Seq<char> {
    if c == '"' {
        "\\\""@
    } else if c == '\\' {
        "\\\\"@
    } else if c as int == 8 {
        "\\b"@
    } else if c as int == 9 {
        "\\t"@
    } else if c as int == 10 {
        "\\n"@
    } else if c as int == 12 {
        "\\f"@
    } else if c as int == 13 {
        "\\r"@
    } else if (c as int) < 32 {
        "\\u00"@ + seq![
            hex_digit_char((c as int / 16) as nat),
            hex_digit_char((c as int % 16) as nat),
        ]
    } else {
        seq![c]
    }
}

/// The body of a JSON string carrying the characters of `s`: each
/// character escaped as JSON requires.
pub open spec fn spec_escape(s: Seq<char>) -> Seq<char>
    decreases s.len(),
{
    if s.len() == 0 {
        Seq::empty()
    } else {
        spec_escape(s.drop_last()) + spec_escaped_char(s.last())
    }
}

/// Escape the characters of `s` for use inside a JSON string literal.
fn escape_json_fragment(s: &str) -> (r: String)
    ensures
        r@ == spec_escape(s@),
{
    let n = s.unicode_len();
    let mut out = String::new();
    let mut i: usize = 0;
    while i < n
        invariant
            0 <= i <= n,
            n == s@.len(),
            out@ == spec_escape(s@.take(i as int)),
        decreases n - i,
    {
        let c = s.get_char(i);
        let v = c as u32;
        if c == '"' {
            out.append("\\\"");
        } else if c == '\\' {
            out.append("\\\\");
        } else if v == 8 {
            out.append("\\b");
        } else if v == 9 {
            out.append("\\t");
        } else if v == 10 {
            out.append("\\n");
        } else if v == 12 {
            out.append("\\f");
        } else if v == 13 {
            out.append("\\r");
        } else if v < 32 {
            out.append("\\u00");
            out.append(hex_digit_str((v / 16) as u8));
            out.append(hex_digit_str((v % 16) as u8));
            proof {
                assert((spec_escape(s@.take(i as int)) + "\\u00"@ + seq![
                    hex_digit_char((v / 16) as nat),
                ]) + seq![hex_digit_char((v % 16) as nat)] =~= spec_escape(s@.take(i as int)) + (
                "\\u00"@ + seq![
                    hex_digit_char((c as int / 16) as nat),
                    hex_digit_char((c as int % 16) as nat),
                ]));
            }
        } else {
            out.append(s.substring_char(i, i + 1));
            proof {
                assert(s@.subrange(i as int, i as int + 1) =~= seq![s@[i as int]]);
            }
        }
        proof {
            assert(s@.take(i as int + 1).drop_last() =~= s@.take(i as int));
            assert(s@.take(i as int + 1).last() == s@[i as int]);
        }
        i += 1;
    }
    proof {
        assert(s@.take(n as int) =~= s@);
    }
    out
}

/// The canonical JSON-RPC envelope sent upstream for a given method name
/// and address: protocol version `2.0`, the parameter list
/// `[address, "latest"]`, and request id 1.
pub open spec fn spec_request_json(method: Seq<char>, address: Seq<char>) -> Seq<char> {
    "{\"jsonrpc\":\"2.0\",\"method\":\""@ + spec_escape(method) + "\",\"params\":[\""@
        + spec_escape(address) + "\",\"latest\"],\"id\":1}"@
}

/// Build the upstream request body for `method` applied to `address`.
pub fn request_json(method: &str, address: &str) -> (r: String)
    ensures
        r@ == spec_request_json(method@, address@),
{
    let mut out = String::from_str("{\"jsonrpc\":\"2.0\",\"method\":\"");
    out.append(escape_json_fragment(method).as_str());
    out.append("\",\"params\":[\"");
    out.append(escape_json_fragment(address).as_str());
    out.append("\",\"latest\"],\"id\":1}");
    proof {
        assert(out@ =~= spec_request_json(method@, address@));
    }
    out
}

/// A JSON-RPC request envelope for an arbitrary method: protocol version,
/// method name, ordered parameter list, and request id.
pub struct GetRpcRequestBody {
    pub jsonrpc: String,
    pub method: String,
    pub params: Vec<String>,
    pub id: i32,
}

impl GetRpcRequestBody {
    /// The envelope is canonical: version `2.0`, id 1, and exactly the two
    /// parameters `[address, "latest"]`.
    pub open spec fn wf(self) -> bool {
        self.jsonrpc@ == "2.0"@ && self.id == 1 && self.params@.len() == 2 && self.params@[1]@
            == "latest"@
    }

    /// Build the canonical envelope for `method` applied to `address`.
    pub fn new(address: &str, method: &str) -> (r: GetRpcRequestBody)
        ensures
            r.wf(),
            r.method@ == method@,
            r.params@[0]@ == address@,
    {
        let mut params: Vec<String> = Vec::new();
        params.push(address.to_owned());
        params.push(String::from_str("latest"));
        GetRpcRequestBody { jsonrpc: String::from_str("2.0"), method: method.to_owned(), params, id: 1 }
    }

    /// Serialize the envelope to its JSON wire form.
    pub fn json_body(&self) -> (r: String)
        requires
            self.wf(),
        ensures
            r@ == spec_request_json(self.method@, self.params@[0]@),
    {
        request_json(self.method.as_str(), self.params[0].as_str())
    }
}

/// The JSON-RPC request envelope of a balance query: the canonical
/// envelope with the method name fixed to `eth_getBalance`.
pub struct GetEthBalanceBody {
    pub jsonrpc: String,
    pub method: String,
    pub params: Vec<String>,
    pub id: i32,
}

impl GetEthBalanceBody {
    /// The envelope is canonical and queries `eth_getBalance`.
    pub open spec fn wf(self) -> bool {
        self.jsonrpc@ == "2.0"@ && self.method@ == "eth_getBalance"@ && self.id == 1
            && self.params@.len() == 2 && self.params@[1]@ == "latest"@
    }

    /// Build the balance-query envelope for `address`.
    pub fn new(address: &str) -> (r: GetEthBalanceBody)
        ensures
            r.wf(),
            r.params@[0]@ == address@,
    {
        let mut params: Vec<String> = Vec::new();
        params.push(address.to_owned());
        params.push(String::from_str("latest"));
        GetEthBalanceBody {
            jsonrpc: String::from_str("2.0"),
            method: String::from_str("eth_getBalance"),
            params,
            id: 1,
        }
    }

    /// Serialize the envelope to its JSON wire form.
    pub fn json_body(&self) -> (r: String)
        requires
            self.wf(),
        ensures
            r@ == spec_request_json("eth_getBalance"@, self.params@[0]@),
    {
        request_json(self.method.as_str(), self.params[0].as_str())
    }
}

} // verus!

