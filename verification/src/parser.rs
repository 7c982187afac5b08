//! Scanner for text containing ANSI control functions.
//!
//! [`TokenStream::from`] wraps an input text; repeated calls of
//! [`TokenStream::next`] split it into [`Token`]s, each either a piece of
//! plain text or a recognized control function.  The scan never fails: text
//! that does not form a recognized control function is handed back verbatim
//! as [`Token::String`] tokens, and concatenating the rendered content of all
//! tokens in order reproduces the input exactly.
//!
//! The functions [`next_token`] and [`tokens_from`] are the mathematical
//! description of the scan; `next` is verified against them.

use vstd::prelude::*;

use crate::c0_model;
use crate::c1_model;
use crate::csi_char;
use crate::esc_char;
use crate::independent_model;
use crate::is_c0_value;
use crate::is_c1_value;
use crate::is_final_char;
use crate::is_independent_value;
use crate::is_intermediate_char;
use crate::is_parameter_char;
use crate::join_parameters;
use crate::render_spec;
use crate::separator_char;
use crate::sequence_model;
use crate::ControlFunction;
use crate::ControlFunctionModel;
use crate::ControlFunctionType;

verus! {

/// Holds of characters representable as a single byte in a 7-bit code.
pub open spec fn is_ascii_char(c: char) -> bool {
    c <= '\u{007F}'
}

/// Holds of the characters at which a control function starts: the whole C0
/// range, since every multi-byte control function starts with the escape
/// character.
pub open spec fn is_function_start(c: char) -> bool {
    is_c0_value(c)
}

/// The first position at or after `i` where a control function starts, or
/// the end of the input.
pub open spec fn scan_text(s: Seq<char>, i: int) -> int
    decreases s.len() - i,
{
    if i >= s.len() {
        s.len() as int
    } else if is_function_start(s[i]) {
        i
    } else {
        scan_text(s, i + 1)
    }
}

/// What characterizes `scan_text`: nothing before it starts a control
/// function, and it either points at such a start or at the end.
pub proof fn lemma_scan_text(s: Seq<char>, i: int)
    requires
        i <= s.len(),
    ensures
        i <= scan_text(s, i) <= s.len(),
        forall|k: int| i <= k < scan_text(s, i) ==> !is_function_start(s[k]),
        scan_text(s, i) < s.len() ==> is_function_start(s[scan_text(s, i)]),
    decreases s.len() - i,
{
    if i < s.len() && !is_function_start(s[i]) {
        lemma_scan_text(s, i + 1);
    }
}

/// Any position with the properties of `scan_text` is `scan_text`.
pub proof fn lemma_scan_text_unique(s: Seq<char>, i: int, j: int)
    requires
        i <= j <= s.len(),
        forall|k: int| i <= k < j ==> !is_function_start(s[k]),
        j < s.len() ==> is_function_start(s[j]),
    ensures
        scan_text(s, i) == j,
    decreases s.len() - i,
{
    if i < s.len() && !is_function_start(s[i]) {
        lemma_scan_text_unique(s, i + 1, j);
    }
}

/// The first position at or after `i` holding the parameter separator, or
/// the end of the text.
pub open spec fn find_separator(s: Seq<char>, i: int) -> int
    decreases s.len() - i,
{
    if i >= s.len() {
        s.len() as int
    } else if s[i] == separator_char() {
        i
    } else {
        find_separator(s, i + 1)
    }
}

/// What characterizes `find_separator`, in the same way as `scan_text`.
pub proof fn lemma_find_separator(s: Seq<char>, i: int)
    requires
        i <= s.len(),
    ensures
        i <= find_separator(s, i) <= s.len(),
        forall|k: int| i <= k < find_separator(s, i) ==> s[k] != separator_char(),
        find_separator(s, i) < s.len() ==> s[find_separator(s, i)] == separator_char(),
    decreases s.len() - i,
{
    if i < s.len() && s[i] != separator_char() {
        lemma_find_separator(s, i + 1);
    }
}

/// Any position with the properties of `find_separator` is `find_separator`.
pub proof fn lemma_find_separator_unique(s: Seq<char>, i: int, j: int)
    requires
        i <= j <= s.len(),
        forall|k: int| i <= k < j ==> s[k] != separator_char(),
        j < s.len() ==> s[j] == separator_char(),
    ensures
        find_separator(s, i) == j,
    decreases s.len() - i,
{
    if i < s.len() && s[i] != separator_char() {
        lemma_find_separator_unique(s, i + 1, j);
    }
}

/// The parameter text of a control sequence split at each separator into the
/// parameter list, preserving empty fields.
pub open spec fn split_parameters(raw: Seq<char>) -> Seq<Seq<char>>
    decreases raw.len(),
    via split_parameters_decreases
{
    let j = find_separator(raw, 0);
    if j == raw.len() {
        seq![raw]
    } else {
        seq![raw.subrange(0, j)] + split_parameters(raw.subrange(j + 1, raw.len() as int))
    }
}

#[via_fn]
proof fn split_parameters_decreases(raw: Seq<char>) {
    lemma_find_separator(raw, 0);
}

/// The scan of a control-sequence body: from position `i`, with the raw
/// parameter text beginning at `start` and `intermediate` telling whether an
/// intermediate byte was already consumed.  On success it yields the
/// identifier, the raw parameter text and the position after the final byte;
/// any other character, or the end of the input, aborts the recognition.
pub open spec fn scan_sequence(s: Seq<char>, start: int, i: int, intermediate: bool) -> Option<
    (Seq<char>, Seq<char>, int),
>
    decreases s.len() - i,
{
    if i >= s.len() {
        None
    } else {
        let c = s[i];
        if !is_ascii_char(c) {
            None
        } else if is_final_char(c) {
            if intermediate {
                Some((s.subrange(i - 1, i + 1), s.subrange(start, i - 1), i + 1))
            } else {
                Some((s.subrange(i, i + 1), s.subrange(start, i), i + 1))
            }
        } else if intermediate {
            None
        } else if is_parameter_char(c) {
            scan_sequence(s, start, i + 1, false)
        } else if is_intermediate_char(c) {
            scan_sequence(s, start, i + 1, true)
        } else {
            None
        }
    }
}

/// A successful control-sequence scan ends after its starting point and
/// within the input, right after a final byte.
pub proof fn lemma_scan_sequence_bounds(s: Seq<char>, start: int, i: int, intermediate: bool)
    ensures
        match scan_sequence(s, start, i, intermediate) {
            Some((value, raw, end)) => i < end <= s.len() && is_final_char(s[end - 1]),
            None => true,
        },
    decreases s.len() - i,
{
    if i < s.len() {
        let c = s[i];
        if is_ascii_char(c) && !is_final_char(c) && !intermediate {
            if is_parameter_char(c) {
                lemma_scan_sequence_bounds(s, start, i + 1, false);
            } else if is_intermediate_char(c) {
                lemma_scan_sequence_bounds(s, start, i + 1, true);
            }
        }
    }
}

/// The model of the escape function standing alone, as the scanner emits it
/// when no longer sequence can be recognized.
pub open spec fn esc_model() -> ControlFunctionModel {
    c0_model(esc_char())
}

/// The control function recognized at position `i`, where a control function
/// starts, together with the position right after it.
///
/// A C0 character other than escape stands for itself.  After an escape, a
/// catalogued C1 or independent code is taken as that two-character function;
/// the control sequence introducer opens a control-sequence scan; anything
/// else leaves the escape standing alone.  A control-sequence scan that
/// aborts also leaves the escape standing alone, and everything after it is
/// read again as ordinary text.
pub open spec fn match_function(s: Seq<char>, i: int) -> (ControlFunctionModel, int) {
    if s[i] != esc_char() {
        (c0_model(s[i]), i + 1)
    } else if i + 1 >= s.len() {
        (esc_model(), i + 1)
    } else {
        let c = s[i + 1];
        if !is_ascii_char(c) {
            (esc_model(), i + 1)
        } else if is_c1_value(c) {
            (c1_model(c), i + 2)
        } else if is_independent_value(c) {
            (independent_model(c), i + 2)
        } else if c == csi_char() {
            match scan_sequence(s, i + 2, i + 2, false) {
                Some((value, raw, end)) => (sequence_model(value, split_parameters(raw)), end),
                None => (esc_model(), i + 1),
            }
        } else {
            (esc_model(), i + 1)
        }
    }
}

/// Mathematical model of a [`Token`]: either plain text or a recognized
/// control function.
#[verifier::ext_equal]
pub enum TokenModel {
    /// A stretch of text in which no control function was recognized.
    Text(Seq<char>),
    /// A recognized control function.
    ControlFunction(ControlFunctionModel),
}

/// The next token of the scan of `s` from position `pos`, with the position
/// after it, or `None` at the end of the input.  Pending text in front of a
/// recognized control function is handed out first; the function itself is
/// emitted by the following call.
pub open spec fn next_token(s: Seq<char>, pos: int) -> Option<(TokenModel, int)> {
    if pos >= s.len() {
        None
    } else {
        let j = scan_text(s, pos);
        if j > pos {
            Some((TokenModel::Text(s.subrange(pos, j)), j))
        } else {
            let (m, end) = match_function(s, pos);
            Some((TokenModel::ControlFunction(m), end))
        }
    }
}

/// Every token ends after the position it starts from and within the input.
pub proof fn lemma_next_token_advances(s: Seq<char>, pos: int)
    ensures
        match next_token(s, pos) {
            Some((t, p)) => pos < p <= s.len(),
            None => true,
        },
{
    if pos < s.len() {
        lemma_scan_text(s, pos);
        let j = scan_text(s, pos);
        if j == pos {
            if s[pos] == esc_char() && pos + 1 < s.len() && is_ascii_char(s[pos + 1]) && s[pos + 1]
                == csi_char() {
                lemma_scan_sequence_bounds(s, pos + 2, pos + 2, false);
            }
        }
    }
}

/// All tokens of the scan of `s` from position `pos` on.
pub open spec fn tokens_from(s: Seq<char>, pos: int) -> Seq<TokenModel>
    decreases s.len() - pos,
    via tokens_from_decreases
{
    match next_token(s, pos) {
        None => Seq::empty(),
        Some((t, p)) => seq![t] + tokens_from(s, p),
    }
}

#[via_fn]
proof fn tokens_from_decreases(s: Seq<char>, pos: int) {
    lemma_next_token_advances(s, pos);
}

/// The complete scan of an input text.
pub open spec fn tokens_of(s: Seq<char>) -> Seq<TokenModel> {
    tokens_from(s, 0)
}

/// The literal content a token stands for: the text of a text token, and
/// the canonical rendered form of a recognized control function, which is
/// exactly the stretch of input consumed to recognize it.
pub open spec fn token_content(t: TokenModel) -> Seq<char> {
    match t {
        TokenModel::Text(text) => text,
        TokenModel::ControlFunction(m) => render_spec(m),
    }
}

/// The literal content of a whole token list, in order.
pub open spec fn tokens_content(ts: Seq<TokenModel>) -> Seq<char>
    decreases ts.len(),
{
    if ts.len() == 0 {
        Seq::empty()
    } else {
        token_content(ts[0]) + tokens_content(ts.drop_first())
    }
}

/// A split always yields at least one entry.
proof fn lemma_split_parameters_nonempty(raw: Seq<char>)
    ensures
        split_parameters(raw).len() >= 1,
{
    lemma_find_separator(raw, 0);
}

/// Joining a split gives back the text that was split: the scanner loses
/// nothing when it takes a raw parameter string apart.
pub proof fn lemma_join_split_parameters(raw: Seq<char>)
    ensures
        join_parameters(split_parameters(raw)) == raw,
    decreases raw.len(),
{
    lemma_find_separator(raw, 0);
    let j = find_separator(raw, 0);
    if j == raw.len() {
        assert(join_parameters(split_parameters(raw)) =~= raw);
    } else {
        let rest = raw.subrange(j + 1, raw.len() as int);
        lemma_join_split_parameters(rest);
        lemma_split_parameters_nonempty(rest);
        let ps = split_parameters(raw);
        assert(ps.drop_first() =~= split_parameters(rest));
        assert(join_parameters(ps) == ps[0] + seq![separator_char()] + join_parameters(
            ps.drop_first(),
        ));
        assert(join_parameters(split_parameters(raw)) =~= raw);
    }
}

/// A successful control-sequence scan hands back the scanned stretch whole:
/// the raw parameter text followed by the identifier is exactly the input
/// between the start of the scan and its end.
proof fn lemma_scan_sequence_content(s: Seq<char>, start: int, i: int, intermediate: bool)
    requires
        0 <= start <= i,
        intermediate ==> start < i,
    ensures
        match scan_sequence(s, start, i, intermediate) {
            Some((value, raw, end)) => raw + value =~= s.subrange(start, end),
            None => true,
        },
    decreases s.len() - i,
{
    if i < s.len() {
        let c = s[i];
        if !is_ascii_char(c) {
        } else if is_final_char(c) {
            if intermediate {
                assert(s.subrange(start, i - 1) + s.subrange(i - 1, i + 1) =~= s.subrange(
                    start,
                    i + 1,
                ));
            } else {
                assert(s.subrange(start, i) + s.subrange(i, i + 1) =~= s.subrange(start, i + 1));
            }
        } else if intermediate {
        } else if is_parameter_char(c) {
            lemma_scan_sequence_content(s, start, i + 1, false);
        } else if is_intermediate_char(c) {
            lemma_scan_sequence_content(s, start, i + 1, true);
        }
    }
}

/// Each token's content is exactly the stretch of input it was read from.
proof fn lemma_next_token_content(s: Seq<char>, pos: int)
    requires
        0 <= pos,
    ensures
        match next_token(s, pos) {
            Some((t, p)) => token_content(t) =~= s.subrange(pos, p),
            None => true,
        },
{
    if pos < s.len() {
        lemma_scan_text(s, pos);
        let j = scan_text(s, pos);
        if j == pos {
            if s[pos] == esc_char() && pos + 1 < s.len() && is_ascii_char(s[pos + 1]) && s[pos + 1]
                == csi_char() {
                match scan_sequence(s, pos + 2, pos + 2, false) {
                    Some((value, raw, end)) => {
                        lemma_scan_sequence_bounds(s, pos + 2, pos + 2, false);
                        lemma_scan_sequence_content(s, pos + 2, pos + 2, false);
                        lemma_join_split_parameters(raw);
                        assert(render_spec(sequence_model(value, split_parameters(raw)))
                            == seq![esc_char(), csi_char()] + raw + value);
                        assert(seq![esc_char(), csi_char()] + (raw + value) =~= s.subrange(
                            pos,
                            end,
                        ));
                        assert(seq![esc_char(), csi_char()] + raw + value =~= seq![
                            esc_char(),
                            csi_char(),
                        ] + (raw + value));
                    },
                    None => {
                        assert(render_spec(esc_model()) =~= s.subrange(pos, pos + 1));
                    },
                }
            } else {
                assert(match next_token(s, pos) {
                    Some((t, p)) => token_content(t) =~= s.subrange(pos, p),
                    None => true,
                });
            }
        }
    }
}

/// The scan from any position reconstructs the rest of the input.
proof fn lemma_tokens_from_content(s: Seq<char>, pos: int)
    requires
        0 <= pos <= s.len(),
    ensures
        tokens_content(tokens_from(s, pos)) =~= s.subrange(pos, s.len() as int),
    decreases s.len() - pos,
{
    lemma_next_token_advances(s, pos);
    match next_token(s, pos) {
        None => {
            assert(tokens_content(tokens_from(s, pos)) =~= s.subrange(pos, s.len() as int));
        },
        Some((t, p)) => {
            lemma_next_token_content(s, pos);
            lemma_tokens_from_content(s, p);
            let ts = tokens_from(s, pos);
            assert(ts == seq![t] + tokens_from(s, p));
            assert(ts.drop_first() =~= tokens_from(s, p));
            assert(tokens_content(ts) == token_content(t) + tokens_content(ts.drop_first()));
            assert(tokens_content(tokens_from(s, pos)) =~= s.subrange(pos, s.len() as int));
        },
    }
}

/// **Exact reconstruction**: concatenating the literal content of all
/// tokens of a scan, in order, reproduces the original input exactly.  Text
/// tokens copy their spans verbatim, and each recognized control function
/// renders back to the very characters that were consumed to recognize it.
pub proof fn lemma_tokens_reconstruct(s: Seq<char>)
    ensures
        tokens_content(tokens_of(s)) =~= s,
{
    lemma_tokens_from_content(s, 0);
    assert(s.subrange(0, s.len() as int) =~= s);
}

/// A Token contains a part of the parsed string.  Each part is either a
/// string that does not contain any recognized control function, or a
/// recognized control function.
///
/// A `Token` is obtained by creating a [`TokenStream`] and calling
/// [`TokenStream::next`] on it.
#[derive(PartialEq, Eq, Debug)]
pub enum Token {
    /// A string in which no control function was recognized.
    String(String),
    /// A valid control function that was found in the parsed string.
    ControlFunction(ControlFunction),
}

impl View for Token {
    type V = TokenModel;

    open spec fn view(&self) -> TokenModel {
        match self {
            Token::String(text) => TokenModel::Text(text@),
            Token::ControlFunction(cf) => TokenModel::ControlFunction(cf@),
        }
    }
}

/// A stream of [`Token`]s parsed from an input string.
///
/// The parse operation can never fail.  If invalid control function text is
/// detected in the input string, it is emitted as an ordinary string token;
/// only valid control functions are emitted as [`Token::ControlFunction`].
#[derive(Debug)]
pub struct TokenStream {
    /// The text being scanned.
    pub value: String,
    /// The position, in characters, that the scan has reached.
    pub position: usize,
}

/// The escape function standing alone, as emitted when no longer sequence
/// can be recognized.
fn escape_function() -> (r: ControlFunction)
    ensures
        r@ == esc_model(),
{
    proof {
        reveal_strlit("\u{001B}");
        assert("\u{001B}"@ =~= seq![esc_char()]);
    }
    ControlFunction::new_c0("\u{001B}")
}

/// Splits raw parameter text at each separator, preserving empty fields,
/// exactly as [`split_parameters`] describes.
fn split_parameters_exec(raw: &str) -> (r: Vec<String>)
    ensures
        r.deep_view() == split_parameters(raw@),
    decreases raw@.len(),
{
    let n = raw.unicode_len();
    let mut k: usize = 0;
    while k < n && raw.get_char(k) != ';'
        invariant
            k <= n,
            n == raw@.len(),
            forall|m: int| 0 <= m < k ==> raw@[m] != separator_char(),
        decreases n - k,
    {
        k = k + 1;
    }
    proof {
        lemma_find_separator_unique(raw@, 0, k as int);
    }
    if k == n {
        let mut r: Vec<String> = Vec::new();
        r.push(String::from_str(raw));
        proof {
            assert(r.deep_view() =~~= split_parameters(raw@));
        }
        r
    } else {
        let first = raw.substring_char(0, k);
        let rest = raw.substring_char(k + 1, n);
        let mut r = split_parameters_exec(rest);
        r.insert(0, String::from_str(first));
        proof {
            assert(r.deep_view() =~~= seq![raw@.subrange(0, k as int)] + split_parameters(
                raw@.subrange(k as int + 1, raw@.len() as int),
            ));
        }
        r
    }
}

/// Scans the body of a control sequence beginning at `start`, as
/// [`scan_sequence`] describes.  On success it returns the position of the
/// final byte and whether an intermediate byte was consumed.
fn scan_cs(s: &str, start: usize) -> (r: Option<(usize, bool)>)
    requires
        start <= s@.len(),
    ensures
        ({
            let scanned = scan_sequence(s@, start as int, start as int, false);
            match r {
                None => scanned is None,
                Some((fin, inter)) => {
                    &&& start <= fin < s@.len()
                    &&& is_final_char(s@[fin as int])
                    &&& (inter ==> start < fin && is_intermediate_char(s@[fin - 1]))
                    &&& scanned == Some(
                        (
                            (if inter {
                                s@.subrange(fin - 1, fin + 1)
                            } else {
                                s@.subrange(fin as int, fin + 1)
                            }),
                            s@.subrange(
                                start as int,
                                (if inter {
                                    fin - 1
                                } else {
                                    fin as int
                                }),
                            ),
                            fin + 1,
                        ),
                    )
                },
            }
        }),
{
    let n = s.unicode_len();
    let mut i = start;
    let mut intermediate = false;
    while i < n
        invariant
            start <= i <= n,
            n == s@.len(),
            intermediate ==> start < i && is_intermediate_char(s@[i - 1]),
            scan_sequence(s@, start as int, start as int, false) == scan_sequence(
                s@,
                start as int,
                i as int,
                intermediate,
            ),
        decreases n - i,
    {
        let c = s.get_char(i);
        if c > '\u{007F}' {
            return None;
        }
        if '\u{0040}' <= c {
            return Some((i, intermediate));
        }
        if intermediate {
            return None;
        }
        if '\u{0030}' <= c && c <= '\u{003F}' {
            i = i + 1;
        } else if c == '\u{0020}' {
            intermediate = true;
            i = i + 1;
        } else {
            return None;
        }
    }
    None
}

impl TokenStream {
    /// Wraps the given string `value` so that the result of the parse
    /// operation can be inspected with [`TokenStream::next`].
    pub fn from(value: &str) -> (r: TokenStream)
        ensures
            r.value@ == value@,
            r.position == 0,
    {
        TokenStream { value: String::from_str(value), position: 0 }
    }

    /// Hands out the next token of the scan, or `None` once the input is
    /// exhausted: exactly the token and the new position that
    /// [`next_token`] gives for the current position.
    pub fn next(&mut self) -> (r: Option<Token>)
        ensures
            final(self).value@ == old(self).value@,
            match next_token(old(self).value@, old(self).position as int) {
                None => r is None && final(self).position == old(self).position,
                Some((t, p)) => r matches Some(token) && token@ == t && final(self).position as int
                    == p,
            },
    {
        let ghost s = self.value@;
        let ghost pos0 = self.position as int;
        let n = self.value.as_str().unicode_len();
        if self.position >= n {
            return None;
        }
        // Find where the plain text in front of the next control function ends.
        let mut j = self.position;
        while j < n && self.value.as_str().get_char(j) > '\u{001F}'
            invariant
                pos0 <= j <= n,
                n == s.len(),
                s == self.value@,
                forall|k: int| pos0 <= k < j ==> !is_function_start(s[k]),
            decreases n - j,
        {
            j = j + 1;
        }
        proof {
            lemma_scan_text_unique(s, pos0, j as int);
        }
        if j > self.position {
            let text = self.value.as_str().substring_char(self.position, j);
            let token = Token::String(String::from_str(text));
            self.position = j;
            return Some(token);
        }
        // A control function starts right at the scan position.
        let c = self.value.as_str().get_char(j);
        if c != '\u{001B}' {
            let value = self.value.as_str().substring_char(j, j + 1);
            proof {
                assert(value@ =~= seq![s[j as int]]);
            }
            let cf = ControlFunction::new_c0(value);
            self.position = j + 1;
            return Some(Token::ControlFunction(cf));
        }
        // An escape at the end of the input stands alone.
        if j + 1 == n {
            self.position = j + 1;
            return Some(Token::ControlFunction(escape_function()));
        }
        // Look ahead one character to find what the escape introduces.
        let c2 = self.value.as_str().get_char(j + 1);
        if c2 > '\u{007F}' {
            self.position = j + 1;
            return Some(Token::ControlFunction(escape_function()));
        }
        if '\u{0042}' <= c2 && c2 <= '\u{005F}' && c2 != '\u{0044}' && c2 != '\u{0059}' && c2
            != '\u{005B}' {
            let value = self.value.as_str().substring_char(j + 1, j + 2);
            proof {
                assert(value@ =~= seq![s[j + 1]]);
            }
            let cf = ControlFunction::new_c1(value);
            self.position = j + 2;
            return Some(Token::ControlFunction(cf));
        }
        if ('\u{0060}' <= c2 && c2 <= '\u{0064}') || c2 == '\u{006E}' || c2 == '\u{006F}' || (
        '\u{007C}' <= c2 && c2 <= '\u{007E}') {
            let value = self.value.as_str().substring_char(j + 1, j + 2);
            proof {
                assert(value@ =~= seq![s[j + 1]]);
            }
            let cf = ControlFunction::new_independent_control_function(value);
            self.position = j + 2;
            return Some(Token::ControlFunction(cf));
        }
        if c2 == '\u{005B}' {
            // The control sequence introducer: scan for a whole control
            // sequence, and fall back to the escape alone if that fails.
            match scan_cs(self.value.as_str(), j + 2) {
                Some((fin, inter)) => {
                    let value = if inter {
                        self.value.as_str().substring_char(fin - 1, fin + 1)
                    } else {
                        self.value.as_str().substring_char(fin, fin + 1)
                    };
                    let raw = if inter {
                        self.value.as_str().substring_char(j + 2, fin - 1)
                    } else {
                        self.value.as_str().substring_char(j + 2, fin)
                    };
                    let parameters = split_parameters_exec(raw);
                    let cf = ControlFunction::new_sequence(value, parameters);
                    self.position = fin + 1;
                    return Some(Token::ControlFunction(cf));
                },
                None => {
                    self.position = j + 1;
                    return Some(Token::ControlFunction(escape_function()));
                },
            }
        }
        self.position = j + 1;
        Some(Token::ControlFunction(escape_function()))
    }
}

/// Holds of a parameter entry as the standard constructors build them: only
/// parameter bytes, and never the separator itself.  An unsigned number in
/// decimal, and the empty entry standing for a default, both satisfy this.
pub open spec fn is_plain_parameter(p: Seq<char>) -> bool {
    forall|j: int| 0 <= j < p.len() ==> is_parameter_char(p[j]) && p[j] != separator_char()
}

/// Holds of a control-function model that the scanner can recognize again
/// from its rendered form, as every value built by the standard constructors
/// is: a C1 or independent identifier stands in the decoder's catalog, and a
/// control sequence carries at least one parameter entry, each a plain
/// parameter.
pub open spec fn decodable(m: ControlFunctionModel) -> bool {
    match m.function_type {
        ControlFunctionType::C0 => true,
        ControlFunctionType::C1 => is_c1_value(m.value[0]),
        ControlFunctionType::IndependentControlFunction => is_independent_value(m.value[0]),
        ControlFunctionType::ControlSequence => m.parameters.len() >= 1 && forall|i: int|
            0 <= i < m.parameters.len() ==> is_plain_parameter(#[trigger] m.parameters[i]),
    }
}

/// A decimal parameter entry, as every standard constructor renders its
/// numeric parameters, is a plain parameter: the round-trip law therefore
/// applies to every value those constructors build.
pub proof fn lemma_dec_parameter_plain(n: int)
    requires
        n >= 0,
    ensures
        is_plain_parameter(crate::text::dec_of(n)),
{
    crate::text::lemma_dec_of_digits(n);
}

/// Every character of a joined plain-parameter list is a parameter byte.
proof fn lemma_join_parameters_chars(ps: Seq<Seq<char>>)
    requires
        forall|i: int| 0 <= i < ps.len() ==> is_plain_parameter(#[trigger] ps[i]),
    ensures
        forall|k: int|
            0 <= k < join_parameters(ps).len() ==> is_parameter_char(
                #[trigger] join_parameters(ps)[k],
            ),
    decreases ps.len(),
{
    if ps.len() > 1 {
        lemma_join_parameters_chars(ps.drop_first());
        assert(is_parameter_char(separator_char()));
        assert forall|k: int| 0 <= k < join_parameters(ps).len() implies is_parameter_char(
            #[trigger] join_parameters(ps)[k],
        ) by {
            let p0 = ps[0];
            let rest = join_parameters(ps.drop_first());
            if k < p0.len() {
                assert(join_parameters(ps)[k] == p0[k]);
            } else if k == p0.len() {
                assert(join_parameters(ps)[k] == separator_char());
            } else {
                assert(join_parameters(ps)[k] == rest[k - p0.len() - 1]);
            }
        }
    }
}

/// Splitting a joined plain-parameter list gives back the very same list.
pub proof fn lemma_split_join_parameters(ps: Seq<Seq<char>>)
    requires
        ps.len() >= 1,
        forall|i: int| 0 <= i < ps.len() ==> is_plain_parameter(#[trigger] ps[i]),
    ensures
        split_parameters(join_parameters(ps)) =~~= ps,
    decreases ps.len(),
{
    let s = join_parameters(ps);
    if ps.len() == 1 {
        lemma_find_separator_unique(s, 0, s.len() as int);
        assert(split_parameters(s) =~~= ps);
    } else {
        let p0 = ps[0];
        let rest = join_parameters(ps.drop_first());
        assert(s == p0 + seq![separator_char()] + rest);
        assert forall|k: int| 0 <= k < p0.len() implies s[k] != separator_char() by {
            assert(s[k] == p0[k]);
        }
        lemma_find_separator_unique(s, 0, p0.len() as int);
        assert(s.subrange(0, p0.len() as int) =~= p0);
        assert(s.subrange(p0.len() as int + 1, s.len() as int) =~= rest);
        lemma_split_join_parameters(ps.drop_first());
        assert(split_parameters(s) =~~= ps);
    }
}

/// A control-sequence scan over parameter bytes runs through to the final
/// byte behind them: directly if the byte at `f` is final, and across an
/// intermediate byte at `f` if a final byte follows it.
proof fn lemma_scan_over_parameters(s: Seq<char>, start: int, i: int, f: int)
    requires
        0 <= start <= i <= f < s.len(),
        forall|k: int| i <= k < f ==> is_parameter_char(#[trigger] s[k]),
    ensures
        is_final_char(s[f]) ==> scan_sequence(s, start, i, false) == Some(
            (s.subrange(f, f + 1), s.subrange(start, f), f + 1),
        ),
        !is_final_char(s[f]) && is_intermediate_char(s[f]) && f + 1 < s.len() && is_final_char(
            s[f + 1],
        ) ==> scan_sequence(s, start, i, false) == Some(
            (s.subrange(f, f + 2), s.subrange(start, f), f + 2),
        ),
    decreases f - i,
{
    if i < f {
        lemma_scan_over_parameters(s, start, i + 1, f);
    } else {
        if !is_final_char(s[f]) && is_intermediate_char(s[f]) && f + 1 < s.len() && is_final_char(
            s[f + 1],
        ) {
            assert(scan_sequence(s, start, f, false) == scan_sequence(s, start, f + 1, true));
            assert(scan_sequence(s, start, f + 1, true) == Some(
                (s.subrange(f, f + 2), s.subrange(start, f), f + 2),
            ));
        }
    }
}

/// **Text passthrough**: decoding an input that contains no byte of the C0
/// range (the escape byte among them), no C1 byte and no independent-code
/// byte yields exactly one text token equal to the whole input.
pub proof fn lemma_text_passthrough(s: Seq<char>)
    requires
        s.len() > 0,
        forall|i: int|
            0 <= i < s.len() ==> !is_c0_value(#[trigger] s[i]) && !is_c1_value(s[i])
                && !is_independent_value(s[i]),
    ensures
        tokens_of(s) =~~= seq![TokenModel::Text(s)],
{
    lemma_scan_text_unique(s, 0, s.len() as int);
    assert(s.subrange(0, s.len() as int) =~= s);
    assert(tokens_from(s, s.len() as int) =~= Seq::<TokenModel>::empty());
    assert(tokens_of(s) =~~= seq![TokenModel::Text(s)]);
}

/// **Round trip**: rendering a well-formed control function whose parameters
/// could have come from the standard constructors, and decoding the result,
/// yields exactly one token: the control function itself, with no text
/// tokens around it.
pub proof fn lemma_round_trip(m: ControlFunctionModel)
    requires
        m.wf(),
        decodable(m),
    ensures
        tokens_of(render_spec(m)) =~~= seq![TokenModel::ControlFunction(m)],
{
    let s = render_spec(m);
    match m.function_type {
        ControlFunctionType::C0 => {
            assert(s =~= seq![m.value[0]]);
            assert(is_function_start(s[0]));
            if m.value[0] == esc_char() {
                assert(match_function(s, 0) == (esc_model(), 1int));
                assert(esc_model() =~~= m);
            } else {
                assert(match_function(s, 0) == (c0_model(s[0]), 1int));
                assert(c0_model(s[0]) =~~= m);
            }
            assert(tokens_from(s, 1) =~= Seq::<TokenModel>::empty());
            assert(tokens_of(s) =~~= seq![TokenModel::ControlFunction(m)]);
        },
        ControlFunctionType::C1 => {
            assert(s =~= seq![esc_char(), m.value[0]]);
            assert(is_function_start(s[0]));
            assert(match_function(s, 0) == (c1_model(s[1]), 2int));
            assert(c1_model(s[1]) =~~= m);
            assert(tokens_from(s, 2) =~= Seq::<TokenModel>::empty());
            assert(tokens_of(s) =~~= seq![TokenModel::ControlFunction(m)]);
        },
        ControlFunctionType::IndependentControlFunction => {
            assert(s =~= seq![esc_char(), m.value[0]]);
            assert(is_function_start(s[0]));
            assert(match_function(s, 0) == (independent_model(s[1]), 2int));
            assert(independent_model(s[1]) =~~= m);
            assert(tokens_from(s, 2) =~= Seq::<TokenModel>::empty());
            assert(tokens_of(s) =~~= seq![TokenModel::ControlFunction(m)]);
        },
        ControlFunctionType::ControlSequence => {
            let joined = join_parameters(m.parameters);
            let f = 2 + joined.len() as int;
            assert(s == seq![esc_char(), csi_char()] + joined + m.value);
            assert(is_function_start(s[0]));
            assert(s[1] == csi_char());
            lemma_join_parameters_chars(m.parameters);
            assert forall|k: int| 2 <= k < f implies is_parameter_char(#[trigger] s[k]) by {
                assert(s[k] == joined[k - 2]);
            }
            lemma_scan_over_parameters(s, 2, 2, f);
            assert(s.subrange(2, f) =~= joined);
            if m.value.len() == 1 {
                assert(s[f] == m.value[0]);
                assert(s.subrange(f, f + 1) =~= m.value);
                assert(scan_sequence(s, 2, 2, false) == Some((s.subrange(f, f + 1), joined, f + 1)));
                assert(f + 1 == s.len());
            } else {
                assert(s[f] == m.value[0] && s[f + 1] == m.value[1]);
                assert(!is_final_char(s[f]));
                assert(s.subrange(f, f + 2) =~= m.value);
                assert(scan_sequence(s, 2, 2, false) == Some((s.subrange(f, f + 2), joined, f + 2)));
                assert(f + 2 == s.len());
            }
            lemma_split_join_parameters(m.parameters);
            assert(match_function(s, 0) == (
                sequence_model(m.value, split_parameters(joined)),
                s.len() as int,
            ));
            assert(sequence_model(m.value, split_parameters(joined)) =~~= m);
            assert(tokens_from(s, s.len() as int) =~= Seq::<TokenModel>::empty());
            assert(tokens_of(s) =~~= seq![TokenModel::ControlFunction(m)]);
        },
    }
}

/// The scan of an input whose last character is the escape ends with the
/// escape function standing alone, from any starting position before the
/// end.
proof fn lemma_trailing_escape_from(s: Seq<char>, pos: int)
    requires
        0 <= pos < s.len(),
        s[s.len() - 1] == esc_char(),
    ensures
        tokens_from(s, pos).len() > 0,
        tokens_from(s, pos).last() == TokenModel::ControlFunction(esc_model()),
    decreases s.len() - pos,
{
    lemma_next_token_advances(s, pos);
    let (t, p) = next_token(s, pos)->Some_0;
    assert(tokens_from(s, pos) == seq![t] + tokens_from(s, p));
    if p < s.len() {
        lemma_trailing_escape_from(s, p);
        assert(tokens_from(s, pos).last() == tokens_from(s, p).last());
    } else {
        assert(tokens_from(s, p) =~= Seq::<TokenModel>::empty());
        assert(tokens_from(s, pos).last() == t);
        let j = scan_text(s, pos);
        lemma_scan_text(s, pos);
        if j > pos {
            assert(is_function_start(s[s.len() - 1]));
            assert(j == s.len());
            assert(!is_function_start(s[j - 1]));
            assert(false);
        } else {
            if s[pos] != esc_char() {
                assert(p == pos + 1);
                assert(pos == s.len() - 1);
                assert(false);
            } else if pos + 1 >= s.len() {
                assert(t == TokenModel::ControlFunction(esc_model()));
            } else {
                let c = s[pos + 1];
                if is_ascii_char(c) && (is_c1_value(c) || is_independent_value(c)) {
                    assert(p == pos + 2);
                    assert(s[pos + 1] == esc_char());
                    assert(false);
                } else if is_ascii_char(c) && c == csi_char() {
                    match scan_sequence(s, pos + 2, pos + 2, false) {
                        Some((value, raw, end)) => {
                            lemma_scan_sequence_bounds(s, pos + 2, pos + 2, false);
                            assert(is_final_char(s[end - 1]));
                            assert(end == s.len());
                            assert(false);
                        },
                        None => {
                            assert(t == TokenModel::ControlFunction(esc_model()));
                            assert(p == pos + 1);
                            assert(false);
                        },
                    }
                } else {
                    assert(p == pos + 1);
                    assert(false);
                }
            }
        }
    }
}

/// **Standalone terminal escape**: decoding an input that ends exactly in
/// the escape character yields a trailing escape-function token.
pub proof fn lemma_trailing_escape(s: Seq<char>)
    requires
        s.len() > 0,
        s[s.len() - 1] == esc_char(),
    ensures
        tokens_of(s).len() > 0,
        tokens_of(s).last() == TokenModel::ControlFunction(esc_model()),
{
    lemma_trailing_escape_from(s, 0);
}

/// **Malformed control sequence fallback**: decoding the escape, the
/// control sequence introducer and a character that can never occur in a
/// control sequence yields the escape function standing alone, followed by
/// the introducer and that character as plain text.
pub proof fn lemma_malformed_sequence_fallback(c: char)
    requires
        !is_ascii_char(c),
    ensures
        tokens_of(seq![esc_char(), csi_char(), c]) =~~= seq![
            TokenModel::ControlFunction(esc_model()),
            TokenModel::Text(seq![csi_char(), c]),
        ],
{
    let s = seq![esc_char(), csi_char(), c];
    assert(is_function_start(s[0]));
    assert(scan_sequence(s, 2, 2, false) is None);
    assert(match_function(s, 0) == (esc_model(), 1int));
    assert(next_token(s, 0) == Some((TokenModel::ControlFunction(esc_model()), 1int)));
    assert(!is_function_start(s[1]));
    assert(!is_function_start(s[2]));
    lemma_scan_text_unique(s, 1, 3);
    assert(next_token(s, 1) == Some((TokenModel::Text(s.subrange(1, 3)), 3int)));
    assert(s.subrange(1, 3) =~= seq![csi_char(), c]);
    assert(tokens_from(s, 3) =~= Seq::<TokenModel>::empty());
    assert(tokens_from(s, 1) =~~= seq![TokenModel::Text(seq![csi_char(), c])]);
    assert(tokens_from(s, 0) =~~= seq![
        TokenModel::ControlFunction(esc_model()),
        TokenModel::Text(seq![csi_char(), c]),
    ]);
}

} // verus!
