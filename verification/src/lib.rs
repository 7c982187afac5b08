//! Control functions of the ECMA-48 / ISO 6429 escape-sequence grammar (the
//! basis of ANSI terminal control), with a verified encoder, decoder and
//! private-use validator.
//!
//! A [`ControlFunction`] is an immutable value describing one control
//! function: an element of the C0 set (module [`c0`]), of the C1 set (module
//! [`c1`]), an independent control function (module
//! [`independent_control_functions`]), or a parameterized control sequence
//! (module [`control_sequences`]).  [`ControlFunction::render`] turns a value
//! into its canonical escape-sequence string, and the scanner in [`parser`]
//! splits arbitrary text back into plain text and recognized control
//! functions.

use vstd::prelude::*;

pub mod c0;
pub mod c1;
pub mod control_sequences;
pub mod control_strings;
pub mod independent_control_functions;
pub mod modes;
pub mod parser;
pub mod text;

verus! {

/// The different types of control functions.
#[derive(Clone, Copy, PartialEq, Eq, Structural, Debug)]
pub enum ControlFunctionType {
    /// Elements of the C0 set, single bytes in the range `00/00` to `01/15`.
    C0,
    /// Elements of the C1 set, represented in 7-bit codes as `ESC Fe`,
    /// where `Fe` is a byte from `04/00` to `05/15`.
    C1,
    /// Control sequences: `CSI`, parameter bytes, and a final identifier.
    ControlSequence,
    /// Independent control functions, represented in 7-bit codes as `ESC Fs`,
    /// where `Fs` is a byte from `06/00` to `07/14`.
    IndependentControlFunction,
}

/// The escape character `01/11`, which introduces every multi-byte control
/// function.
pub open spec fn esc_char() -> char {
    '\u{001B}'
}

/// The control sequence introducer's second character `05/11`.
pub open spec fn csi_char() -> char {
    '['
}

/// The parameter separator `03/11`.
pub open spec fn separator_char() -> char {
    ';'
}

/// Mathematical model of a [`ControlFunction`]: the type tag, the identifier
/// as a character sequence, and the parameters as character sequences.
#[verifier::ext_equal]
pub struct ControlFunctionModel {
    /// The type of the control function.
    pub function_type: ControlFunctionType,
    /// The characters identifying the function.
    pub value: Seq<char>,
    /// The parameter strings, in order.
    pub parameters: Seq<Seq<char>>,
}

/// An ANSI control function defined in ECMA-48.
///
/// Values are intended to be built through the constructors of the catalog
/// modules, through [`ControlFunction::private_use`], or by the scanner in
/// [`parser`]: each of those establishes the well-formedness invariant
/// [`ControlFunctionModel::wf`] that the contracts speak of.  The fields are
/// exposed so that the specifications can describe them.  Equality is
/// structural; the canonical string form of a value is produced by
/// [`ControlFunction::render`].
#[derive(Clone, PartialEq, Eq, Debug)]
pub struct ControlFunction {
    /// The type of the control function.
    pub function_type: ControlFunctionType,
    /// The byte or byte combination identifying the control function.
    pub value: String,
    /// An arbitrary number of arguments for this control function.
    pub parameters: Vec<String>,
}

/// Compares two strings character by character.
fn str_eq(a: &str, b: &str) -> (r: bool)
    ensures
        r == (a@ == b@),
{
    let n = a.unicode_len();
    let m = b.unicode_len();
    if n != m {
        return false;
    }
    let mut i: usize = 0;
    while i < n
        invariant
            i <= n,
            n == a@.len(),
            n == b@.len(),
            forall|k: int| 0 <= k < i ==> a@[k] == b@[k],
        decreases n - i,
    {
        if a.get_char(i) != b.get_char(i) {
            return false;
        }
        i = i + 1;
    }
    proof {
        assert(a@ =~= b@);
    }
    true
}

/// The code-table notation of a single 7-bit character.
fn byte_str(c: char) -> (r: String)
    requires
        (c as u32) < 128,
    ensures
        r@ == byte_notation(c),
{
    proof {
        reveal_strlit("/");
    }
    let u = c as u32;
    let x = u / 16;
    let y = u % 16;
    let mut r = String::from_str(text::digit_str(x / 10));
    r.append(text::digit_str(x % 10));
    r.append("/");
    r.append(text::digit_str(y / 10));
    r.append(text::digit_str(y % 10));
    proof {
        assert(r@ =~= byte_notation(c));
    }
    r
}

impl View for ControlFunction {
    type V = ControlFunctionModel;

    open spec fn view(&self) -> ControlFunctionModel {
        ControlFunctionModel {
            function_type: self.function_type,
            value: self.value@,
            parameters: self.parameters.deep_view(),
        }
    }
}

/// Holds of the characters admissible as a C0 identifier: the control range
/// `00/00` to `01/15`.
pub open spec fn is_c0_value(c: char) -> bool {
    c <= '\u{001F}'
}

/// Holds of the characters admissible as a C1 identifier: `04/00` to
/// `05/15`.
pub open spec fn is_c1_range(c: char) -> bool {
    '\u{0040}' <= c <= '\u{005F}'
}

/// Holds of the characters assigned to C1 control functions in the decoder's
/// catalog: `04/00` to `05/15`, without the four unallocated combinations
/// and without the control sequence introducer.
pub open spec fn is_c1_value(c: char) -> bool {
    '\u{0042}' <= c <= '\u{005F}' && c != '\u{0044}' && c != '\u{0059}' && c != '\u{005B}'
}

/// Holds of the characters admissible as an independent control function
/// identifier: `06/00` to `07/14`.
pub open spec fn is_independent_range(c: char) -> bool {
    '\u{0060}' <= c <= '\u{007E}'
}

/// Holds of the characters assigned to independent control functions in the
/// decoder's catalog: `06/00` to `06/04`, `06/14`, `06/15`, and `07/12` to
/// `07/14`.
pub open spec fn is_independent_value(c: char) -> bool {
    ('\u{0060}' <= c <= '\u{0064}') || c == '\u{006E}' || c == '\u{006F}' || ('\u{007C}' <= c
        <= '\u{007E}')
}

/// Holds of the parameter bytes of a control sequence: `03/00` to `03/15`.
pub open spec fn is_parameter_char(c: char) -> bool {
    '\u{0030}' <= c <= '\u{003F}'
}

/// The single admissible intermediate byte of a control sequence, `02/00`.
pub open spec fn is_intermediate_char(c: char) -> bool {
    c == '\u{0020}'
}

/// Holds of the bytes that terminate a control sequence: `04/00` to `07/15`,
/// whose last sixteen codes form the private-use range.
pub open spec fn is_final_char(c: char) -> bool {
    '\u{0040}' <= c <= '\u{007F}'
}

/// Holds of the final bytes reserved for private-use control sequences:
/// `07/00` to `07/15`.
pub open spec fn is_private_use_final_char(c: char) -> bool {
    '\u{0070}' <= c <= '\u{007F}'
}

impl ControlFunctionModel {
    /// The invariants of the value model: the identifier is admissible for
    /// the function type, and only control sequences carry parameters.
    pub open spec fn wf(self) -> bool {
        match self.function_type {
            ControlFunctionType::C0 => self.value.len() == 1 && is_c0_value(self.value[0])
                && self.parameters.len() == 0,
            ControlFunctionType::C1 => self.value.len() == 1 && is_c1_range(self.value[0])
                && self.parameters.len() == 0,
            ControlFunctionType::IndependentControlFunction => self.value.len() == 1
                && is_independent_range(self.value[0]) && self.parameters.len() == 0,
            ControlFunctionType::ControlSequence => (self.value.len() == 1 && is_final_char(
                self.value[0],
            )) || (self.value.len() == 2 && is_intermediate_char(self.value[0]) && is_final_char(
                self.value[1],
            )),
        }
    }
}

/// The model of a C0 control function with the given identifier.
pub open spec fn c0_model(c: char) -> ControlFunctionModel {
    ControlFunctionModel {
        function_type: ControlFunctionType::C0,
        value: seq![c],
        parameters: Seq::empty(),
    }
}

/// The model of a C1 control function with the given identifier.
pub open spec fn c1_model(c: char) -> ControlFunctionModel {
    ControlFunctionModel {
        function_type: ControlFunctionType::C1,
        value: seq![c],
        parameters: Seq::empty(),
    }
}

/// The model of an independent control function with the given identifier.
pub open spec fn independent_model(c: char) -> ControlFunctionModel {
    ControlFunctionModel {
        function_type: ControlFunctionType::IndependentControlFunction,
        value: seq![c],
        parameters: Seq::empty(),
    }
}

/// The model of a control sequence with the given identifier and parameters.
pub open spec fn sequence_model(value: Seq<char>, parameters: Seq<Seq<char>>) -> ControlFunctionModel {
    ControlFunctionModel { function_type: ControlFunctionType::ControlSequence, value, parameters }
}

/// The parameter list of a control sequence joined with the separator:
/// one separator between consecutive entries, none trailing.
pub open spec fn join_parameters(ps: Seq<Seq<char>>) -> Seq<char>
    decreases ps.len(),
{
    if ps.len() == 0 {
        Seq::empty()
    } else if ps.len() == 1 {
        ps[0]
    } else {
        ps[0] + seq![separator_char()] + join_parameters(ps.drop_first())
    }
}

/// Joining one more parameter appends a separator and the parameter.
pub proof fn lemma_join_parameters_push(ps: Seq<Seq<char>>, p: Seq<char>)
    requires
        ps.len() >= 1,
    ensures
        join_parameters(ps.push(p)) == join_parameters(ps) + seq![separator_char()] + p,
    decreases ps.len(),
{
    if ps.len() == 1 {
        let q = ps.push(p);
        assert(q.drop_first() =~= seq![p]);
        assert(join_parameters(q.drop_first()) == p);
        assert(join_parameters(q) == q[0] + seq![separator_char()] + join_parameters(q.drop_first()));
        assert(join_parameters(ps.push(p)) =~= join_parameters(ps) + seq![separator_char()] + p);
    } else {
        lemma_join_parameters_push(ps.drop_first(), p);
        assert(ps.push(p).drop_first() =~= ps.drop_first().push(p));
        assert(join_parameters(ps.push(p)) =~= join_parameters(ps) + seq![separator_char()] + p);
    }
}

/// The canonical string form of a control function: a C0 identifier stands
/// alone, C1 and independent identifiers follow an escape, and a control
/// sequence is the control sequence introducer, the joined parameters, and
/// the identifier.
pub open spec fn render_spec(m: ControlFunctionModel) -> Seq<char> {
    match m.function_type {
        ControlFunctionType::C0 => m.value,
        ControlFunctionType::C1 => seq![esc_char()] + m.value,
        ControlFunctionType::IndependentControlFunction => seq![esc_char()] + m.value,
        ControlFunctionType::ControlSequence => seq![esc_char(), csi_char()] + join_parameters(
            m.parameters,
        ) + m.value,
    }
}

impl ControlFunctionType {
    /// The descriptive name of this type, as it appears in the debug form
    /// of a control function.
    pub open spec fn name_spec(self) -> Seq<char> {
        match self {
            ControlFunctionType::C0 => "C0"@,
            ControlFunctionType::C1 => "C1"@,
            ControlFunctionType::ControlSequence => "Control Sequence"@,
            ControlFunctionType::IndependentControlFunction => "Independent Control Function"@,
        }
    }

    /// The descriptive name of this type, as it appears in the debug form
    /// of a control function.
    pub fn name(&self) -> (r: &'static str)
        ensures
            r@ == self.name_spec(),
    {
        match self {
            ControlFunctionType::C0 => "C0",
            ControlFunctionType::C1 => "C1",
            ControlFunctionType::ControlSequence => "Control Sequence",
            ControlFunctionType::IndependentControlFunction => "Independent Control Function",
        }
    }
}

/// The `xx/yy` code-table notation of a 7-bit character: the column number
/// `00` to `07` and the row number `00` to `15`, each in two digits.
pub open spec fn byte_notation(c: char) -> Seq<char> {
    let x = (c as u32) / 16;
    let y = (c as u32) % 16;
    seq![
        text::digit_char(x as int / 10),
        text::digit_char(x as int % 10),
        '/',
        text::digit_char(y as int / 10),
        text::digit_char(y as int % 10),
    ]
}

/// The code-table notation of an identifier: each character's notation,
/// separated by spaces.
pub open spec fn value_notation(v: Seq<char>) -> Seq<char>
    decreases v.len(),
{
    if v.len() == 0 {
        Seq::empty()
    } else if v.len() == 1 {
        byte_notation(v[0])
    } else {
        byte_notation(v[0]) + seq![' '] + value_notation(v.drop_first())
    }
}

/// The parameter entries in debug form: each quoted, separated by a comma
/// and a space.
pub open spec fn parameters_notation(ps: Seq<Seq<char>>) -> Seq<char>
    decreases ps.len(),
{
    if ps.len() == 0 {
        Seq::empty()
    } else if ps.len() == 1 {
        seq!['"'] + ps[0] + seq!['"']
    } else {
        seq!['"'] + ps[0] + seq!['"'] + ", "@ + parameters_notation(ps.drop_first())
    }
}

/// Writing one more entry appends a comma, a space, and the quoted entry.
proof fn lemma_parameters_notation_push(ps: Seq<Seq<char>>, p: Seq<char>)
    requires
        ps.len() >= 1,
    ensures
        parameters_notation(ps.push(p)) == parameters_notation(ps) + ", "@ + seq!['"'] + p
            + seq!['"'],
    decreases ps.len(),
{
    if ps.len() == 1 {
        let q = ps.push(p);
        assert(q.drop_first() =~= seq![p]);
        assert(parameters_notation(q.drop_first()) == seq!['"'] + p + seq!['"']);
        assert(parameters_notation(q) == seq!['"'] + q[0] + seq!['"'] + ", "@ + parameters_notation(
            q.drop_first(),
        ));
        assert(parameters_notation(ps.push(p)) =~= parameters_notation(ps) + ", "@ + seq!['"'] + p
            + seq!['"']);
    } else {
        lemma_parameters_notation_push(ps.drop_first(), p);
        assert(ps.push(p).drop_first() =~= ps.drop_first().push(p));
        assert(parameters_notation(ps.push(p)) =~= parameters_notation(ps) + ", "@ + seq!['"'] + p
            + seq!['"']);
    }
}

/// The debug form of a control function: the type's name, the identifier in
/// code-table notation, and the quoted parameters.
pub open spec fn debug_spec(m: ControlFunctionModel) -> Seq<char> {
    "ControlFunction { function_type: "@ + m.function_type.name_spec() + ", function: \""@
        + value_notation(m.value) + "\", parameters: ["@ + parameters_notation(m.parameters)
        + "] }"@
}

/// Possible errors when specifying a custom control function.
///
/// It is possible to define custom control functions, so called private-use
/// or experimental functions.  These private-use functions still need to
/// follow some rules.  If they violate the rules, one of these variants is
/// returned as an error.
#[derive(Clone, Copy, PartialEq, Eq, Structural, Debug)]
pub enum InvalidControlFunction {
    /// All control function values must be valid ASCII.
    InvalidAsciiError,
    /// All control functions must have a one- or two-byte function identifier.
    InvalidFunctionValueError,
    /// If the function has an intermediate byte, it must be `02/00`.  All
    /// other intermediate bytes are invalid.
    InvalidIntermediateByteError,
    /// All private-use functions must be in the range `07/00` to `07/15`.
    InvalidPrivateUseError,
}

impl InvalidControlFunction {
    /// A human-readable description of the error.
    pub fn message(&self) -> (r: &'static str)
        ensures
            r@ == match *self {
                InvalidControlFunction::InvalidAsciiError => "Control function must be valid ASCII"@,
                InvalidControlFunction::InvalidFunctionValueError => "Control function must have one- or two-byte identifier"@,
                InvalidControlFunction::InvalidIntermediateByteError => "Intermediate byte must be 02/00"@,
                InvalidControlFunction::InvalidPrivateUseError => "Private use functions are only allowed in range 07/00 to 07/15"@,
            },
    {
        match self {
            InvalidControlFunction::InvalidAsciiError => "Control function must be valid ASCII",
            InvalidControlFunction::InvalidFunctionValueError => {
                "Control function must have one- or two-byte identifier"
            },
            InvalidControlFunction::InvalidIntermediateByteError => "Intermediate byte must be 02/00",
            InvalidControlFunction::InvalidPrivateUseError => {
                "Private use functions are only allowed in range 07/00 to 07/15"
            },
        }
    }
}

/// The error a private-use identifier is rejected with, if any: the checks
/// run in order and stop at the first failure.
pub open spec fn private_use_error(v: Seq<char>) -> Option<InvalidControlFunction> {
    if !vstd::utf8::is_ascii_chars(v) {
        Some(InvalidControlFunction::InvalidAsciiError)
    } else if v.len() != 1 && v.len() != 2 {
        Some(InvalidControlFunction::InvalidFunctionValueError)
    } else if v.len() == 2 && !is_intermediate_char(v[0]) {
        Some(InvalidControlFunction::InvalidIntermediateByteError)
    } else if !is_private_use_final_char(v[v.len() - 1]) {
        Some(InvalidControlFunction::InvalidPrivateUseError)
    } else {
        None
    }
}

impl ControlFunction {
    /// Creates a new control function of type [`ControlFunctionType::C0`].
    ///
    /// `C0` control functions do not accept any parameters.
    pub(crate) fn new_c0(value: &str) -> (r: ControlFunction)
        requires
            value@.len() == 1,
            is_c0_value(value@[0]),
        ensures
            r@ == c0_model(value@[0]),
            r@.wf(),
    {
        let r = ControlFunction {
            function_type: ControlFunctionType::C0,
            value: String::from_str(value),
            parameters: Vec::new(),
        };
        proof {
            assert(r@ =~~= c0_model(value@[0]));
        }
        r
    }

    /// Creates a new control function of type [`ControlFunctionType::C1`].
    ///
    /// `C1` control functions do not accept any parameters.
    pub(crate) fn new_c1(value: &str) -> (r: ControlFunction)
        requires
            value@.len() == 1,
            is_c1_range(value@[0]),
        ensures
            r@ == c1_model(value@[0]),
            r@.wf(),
    {
        let r = ControlFunction {
            function_type: ControlFunctionType::C1,
            value: String::from_str(value),
            parameters: Vec::new(),
        };
        proof {
            assert(r@ =~~= c1_model(value@[0]));
        }
        r
    }

    /// Creates a new control function of type
    /// [`ControlFunctionType::IndependentControlFunction`].
    pub(crate) fn new_independent_control_function(value: &str) -> (r: ControlFunction)
        requires
            value@.len() == 1,
            is_independent_range(value@[0]),
        ensures
            r@ == independent_model(value@[0]),
            r@.wf(),
    {
        let r = ControlFunction {
            function_type: ControlFunctionType::IndependentControlFunction,
            value: String::from_str(value),
            parameters: Vec::new(),
        };
        proof {
            assert(r@ =~~= independent_model(value@[0]));
        }
        r
    }

    /// Creates a new control function of type
    /// [`ControlFunctionType::ControlSequence`].
    pub(crate) fn new_sequence(value: &str, parameters: Vec<String>) -> (r: ControlFunction)
        requires
            (value@.len() == 1 && is_final_char(value@[0])) || (value@.len() == 2
                && is_intermediate_char(value@[0]) && is_final_char(value@[1])),
        ensures
            r@ == sequence_model(value@, parameters.deep_view()),
            r@.wf(),
    {
        ControlFunction {
            function_type: ControlFunctionType::ControlSequence,
            value: String::from_str(value),
            parameters,
        }
    }

    /// Creates a new control function of type
    /// [`ControlFunctionType::ControlSequence`] with a function that is
    /// declared as private use.  These functions are not standardized and
    /// their function is unknown.  Yet, the standard allows these functions
    /// to exist for experimental use.
    ///
    /// If the specified value lies outside of the valid private use area,
    /// this function will return `Err`.
    pub fn private_use(value: &str, parameters: Vec<String>) -> (r: Result<
        ControlFunction,
        InvalidControlFunction,
    >)
        ensures
            match r {
                Ok(cf) => private_use_error(value@) is None && cf@ == sequence_model(
                    value@,
                    parameters.deep_view(),
                ) && cf@.wf(),
                Err(e) => private_use_error(value@) == Some(e),
            },
    {
        if !value.is_ascii() {
            return Err(InvalidControlFunction::InvalidAsciiError);
        }
        let len = value.unicode_len();
        if len != 1 && len != 2 {
            return Err(InvalidControlFunction::InvalidFunctionValueError);
        }
        if len == 2 && value.get_char(0) != '\u{0020}' {
            return Err(InvalidControlFunction::InvalidIntermediateByteError);
        }
        let last = value.get_char(len - 1);
        if !('\u{0070}' <= last && last <= '\u{007F}') {
            return Err(InvalidControlFunction::InvalidPrivateUseError);
        }
        Ok(
            ControlFunction {
                function_type: ControlFunctionType::ControlSequence,
                value: String::from_str(value),
                parameters,
            },
        )
    }

    /// The parameter list joined with the separator, as it appears in the
    /// rendered control sequence.
    pub(crate) fn format_parameters(&self) -> (r: String)
        ensures
            r@ == join_parameters(self@.parameters),
    {
        let ghost ps = self@.parameters;
        let mut r = String::new();
        let mut i: usize = 0;
        while i < self.parameters.len()
            invariant
                i <= self.parameters.len(),
                ps == self@.parameters,
                i == 0 ==> r@ == Seq::<char>::empty(),
                i > 0 ==> r@ == join_parameters(ps.take(i as int)),
            decreases self.parameters.len() - i,
        {
            proof {
                reveal_strlit(";");
                assert(ps[i as int] == self.parameters[i as int]@);
            }
            if i > 0 {
                r.append(";");
                proof {
                    lemma_join_parameters_push(ps.take(i as int), ps[i as int]);
                    assert(ps.take(i as int).push(ps[i as int]) =~= ps.take(i + 1));
                }
            } else {
                proof {
                    assert(join_parameters(ps.take(1)) == ps.take(1)[0]);
                }
            }
            r.append(self.parameters[i].as_str());
            i = i + 1;
            proof {
                assert(r@ =~= join_parameters(ps.take(i as int)));
            }
        }
        proof {
            assert(ps.take(ps.len() as int) =~= ps);
        }
        r
    }

    /// Tells whether the given string is exactly the canonical rendered
    /// form of this control function.  This is the dedicated
    /// string-comparison adapter: values themselves compare structurally,
    /// and only this comparison goes through the rendered string.
    pub fn eq_str(&self, other: &str) -> (r: bool)
        ensures
            r == (other@ == render_spec(self@)),
    {
        let rendered = self.render();
        str_eq(rendered.as_str(), other)
    }

    /// The debug form of this control function, exactly as [`debug_spec`]
    /// describes.
    pub fn debug_str(&self) -> (r: String)
        requires
            self@.wf(),
        ensures
            r@ == debug_spec(self@),
    {
        let ghost m = self@;
        let mut r = String::from_str("ControlFunction { function_type: ");
        r.append(self.function_type.name());
        r.append(", function: \"");
        let n = self.value.as_str().unicode_len();
        if n == 1 {
            let b0 = byte_str(self.value.as_str().get_char(0));
            r.append(b0.as_str());
            proof {
                assert(value_notation(m.value) =~= b0@);
            }
        } else {
            let b0 = byte_str(self.value.as_str().get_char(0));
            let b1 = byte_str(self.value.as_str().get_char(1));
            r.append(b0.as_str());
            r.append(" ");
            r.append(b1.as_str());
            proof {
                reveal_strlit(" ");
                assert(m.value.drop_first() =~= seq![m.value[1]]);
                assert(value_notation(seq![m.value[1]]) == byte_notation(m.value[1]));
                assert(value_notation(m.value) == byte_notation(m.value[0]) + seq![' ']
                    + value_notation(m.value.drop_first()));
                assert(value_notation(m.value) =~= b0@ + " "@ + b1@);
            }
        }
        r.append("\", parameters: [");
        let mut p = String::new();
        let mut i: usize = 0;
        while i < self.parameters.len()
            invariant
                i <= self.parameters.len(),
                m == self@,
                i == 0 ==> p@ == Seq::<char>::empty(),
                i > 0 ==> p@ == parameters_notation(m.parameters.take(i as int)),
            decreases self.parameters.len() - i,
        {
            proof {
                reveal_strlit("\"");
                reveal_strlit(", ");
                assert(m.parameters[i as int] == self.parameters[i as int]@);
            }
            if i > 0 {
                p.append(", ");
                proof {
                    lemma_parameters_notation_push(
                        m.parameters.take(i as int),
                        m.parameters[i as int],
                    );
                    assert(m.parameters.take(i as int).push(m.parameters[i as int]) =~= m
                        .parameters.take(i + 1));
                }
            } else {
                proof {
                    assert(parameters_notation(m.parameters.take(1)) == seq!['"'] + m.parameters[0]
                        + seq!['"']);
                }
            }
            p.append("\"");
            p.append(self.parameters[i].as_str());
            p.append("\"");
            i = i + 1;
            proof {
                assert(p@ =~= parameters_notation(m.parameters.take(i as int)));
            }
        }
        proof {
            assert(m.parameters.take(m.parameters.len() as int) =~= m.parameters);
        }
        r.append(p.as_str());
        r.append("] }");
        proof {
            assert(r@ =~= debug_spec(m));
        }
        r
    }

    /// Renders the control function into its canonical escape-sequence
    /// string, exactly as [`render_spec`] describes.
    pub fn render(&self) -> (r: String)
        ensures
            r@ == render_spec(self@),
    {
        proof {
            reveal_strlit("\u{001B}");
            reveal_strlit("\u{001B}[");
        }
        match self.function_type {
            ControlFunctionType::C0 => {
                let r = self.value.clone();
                proof {
                    assert(r@ =~= render_spec(self@));
                }
                r
            },
            ControlFunctionType::C1 | ControlFunctionType::IndependentControlFunction => {
                let mut r = String::from_str("\u{001B}");
                r.append(self.value.as_str());
                proof {
                    assert(r@ =~= render_spec(self@));
                }
                r
            },
            ControlFunctionType::ControlSequence => {
                let mut r = String::from_str("\u{001B}[");
                let parameters = self.format_parameters();
                r.append(parameters.as_str());
                r.append(self.value.as_str());
                proof {
                    assert(r@ =~= render_spec(self@));
                }
                r
            },
        }
    }
}

} // verus!
