//! Serial line consoles: the descriptor string and the line settings.
//!
//! A serial console is described by a string of the form
//! `device:baudrate:databits:parity:stopbits:hwflow`. The device is
//! mandatory: a descriptor whose first field is empty is refused. The other
//! fields are optional and default to 9600, 8, no parity, 1 and 0; a field
//! that is absent, empty or not a number takes its default. The settings
//! are then checked against what a serial line can be set to.

use vstd::prelude::*;
use vstd::slice::slice_subrange;
use vstd::slice::slice_to_vec;
use vstd::string::StringSliceAdditionalSpecFns;

verus! {

/// Command line support utility
#[derive(Debug, Clone, PartialEq, Eq)]
pub struct VttySerialOption {
    /// Path of the device; nothing until a descriptor was parsed.
    pub device: Option<Vec<u8>>,
    pub baudrate: i32,
    pub databits: i32,
    /// 0 for none, 1 for odd, 2 for even.
    pub parity: i32,
    pub stopbits: i32,
    pub hwflow: i32,
}

pub type vtty_serial_option_t = VttySerialOption;

/// A serial option as a mathematical value.
pub struct VttySerialOptionView {
    pub device: Option<Seq<u8>>,
    pub baudrate: i32,
    pub databits: i32,
    pub parity: i32,
    pub stopbits: i32,
    pub hwflow: i32,
}

impl View for VttySerialOption {
    type V = VttySerialOptionView;

    open spec fn view(&self) -> VttySerialOptionView {
        VttySerialOptionView {
            device: match self.device {
                Some(d) => Some(d@),
                None => None,
            },
            baudrate: self.baudrate,
            databits: self.databits,
            parity: self.parity,
            stopbits: self.stopbits,
            hwflow: self.hwflow,
        }
    }
}

/// The position of the first `:` of `s` at or after `from`, or the length
/// of `s` where there is none.
pub open spec fn colon_from(s: Seq<u8>, from: int) -> int
    decreases s.len() - from,
{
    if from < 0 || from >= s.len() {
        s.len() as int
    } else if s[from] == 0x3a {
        from
    } else {
        colon_from(s, from + 1)
    }
}

/// The position at which field `n` of the descriptor `s` starts, counting
/// fields from 0; nothing where `s` has fewer fields.
pub open spec fn field_start(s: Seq<u8>, n: nat) -> Option<int>
    decreases n,
{
    if n == 0 {
        Some(0)
    } else {
        match field_start(s, (n - 1) as nat) {
            None => None,
            Some(p) => {
                if colon_from(s, p) < s.len() {
                    Some(colon_from(s, p) + 1)
                } else {
                    None
                }
            },
        }
    }
}

/// Field `n` of the descriptor `s`: the bytes between its colons.
pub open spec fn field(s: Seq<u8>, n: nat) -> Option<Seq<u8>> {
    match field_start(s, n) {
        None => None,
        Some(p) => Some(s.subrange(p, colon_from(s, p))),
    }
}

/// Whether `s` is one or more decimal digits.
pub open spec fn is_digits(s: Seq<u8>) -> bool {
    s.len() > 0 && forall|i: int| 0 <= i < s.len() ==> 0x30 <= #[trigger] s[i] <= 0x39
}

/// The number that the decimal digits `s` write.
pub open spec fn digits_value(s: Seq<u8>) -> nat
    decreases s.len(),
{
    if s.len() == 0 {
        0
    } else {
        digits_value(s.drop_last()) * 10 + (s.last() - 0x30) as nat
    }
}

/// The number that `s` writes: an optional sign, `+` or `-`, then one or
/// more decimal digits, the whole within the range of `i32`. Nothing where
/// `s` is not of that form.
pub open spec fn parse_i32(s: Seq<u8>) -> Option<i32> {
    let negative = s.len() > 0 && s[0] == 0x2d;
    let signed = s.len() > 0 && (s[0] == 0x2d || s[0] == 0x2b);
    let digits = if signed {
        s.skip(1)
    } else {
        s
    };
    let value = if negative {
        -(digits_value(digits) as int)
    } else {
        digits_value(digits) as int
    };
    if is_digits(digits) && i32::MIN <= value <= i32::MAX {
        Some(value as i32)
    } else {
        None
    }
}

/// The number in a field, or `default` where the field is absent or is not
/// a number.
pub open spec fn number_or(f: Option<Seq<u8>>, default: i32) -> i32 {
    match f {
        Some(text) => match parse_i32(text) {
            Some(v) => v,
            None => default,
        },
        None => default,
    }
}

/// The parity that a field asks for: 1 (odd) where it starts with `o` or
/// `O`, 2 (even) where it starts with `e` or `E`, 0 (none) otherwise.
pub open spec fn parity_of(f: Option<Seq<u8>>) -> i32 {
    match f {
        Some(text) => {
            if text.len() == 0 {
                0
            } else if text[0] == 0x6f || text[0] == 0x4f {
                1
            } else if text[0] == 0x65 || text[0] == 0x45 {
                2
            } else {
                0
            }
        },
        None => 0,
    }
}

/// Whether the descriptor `s` names a device: its first field is not empty.
pub open spec fn names_device(s: Seq<u8>) -> bool {
    colon_from(s, 0) > 0
}

/// What the descriptor `s` says.
pub open spec fn parsed(s: Seq<u8>) -> VttySerialOptionView {
    VttySerialOptionView {
        device: field(s, 0),
        baudrate: number_or(field(s, 1), 9600),
        databits: number_or(field(s, 2), 8),
        parity: parity_of(field(s, 3)),
        stopbits: number_or(field(s, 4), 1),
        hwflow: number_or(field(s, 5), 0),
    }
}

/// A field starts within the descriptor, and ends at or after its start.
pub proof fn lemma_field_bounds(s: Seq<u8>, n: nat)
    ensures
        field_start(s, n) matches Some(p) ==> 0 <= p <= colon_from(s, p) <= s.len(),
    decreases n,
{
    if n > 0 {
        lemma_field_bounds(s, (n - 1) as nat);
    }
    if let Some(p) = field_start(s, n) {
        lemma_colon_from_bounds(s, p);
    }
}

/// The first colon at or after a position within the descriptor lies
/// between that position and the end.
pub proof fn lemma_colon_from_bounds(s: Seq<u8>, from: int)
    requires
        0 <= from <= s.len(),
    ensures
        from <= colon_from(s, from) <= s.len(),
        forall|j: int| from <= j < colon_from(s, from) ==> s[j] != 0x3a,
        colon_from(s, from) < s.len() ==> s[colon_from(s, from)] == 0x3a,
    decreases s.len() - from,
{
    if from < s.len() && s[from] != 0x3a {
        lemma_colon_from_bounds(s, from + 1);
    }
}

/// The value of a run of digits is at least the value of any of its
/// prefixes.
pub proof fn lemma_digits_value_grows(s: Seq<u8>, k: int)
    requires
        0 <= k <= s.len(),
        forall|i: int| 0 <= i < s.len() ==> 0x30 <= #[trigger] s[i] <= 0x39,
    ensures
        digits_value(s.take(k)) <= digits_value(s),
    decreases s.len() - k,
{
    if k == s.len() {
        assert(s.take(k) == s);
    } else {
        lemma_digits_value_grows(s, k + 1);
        assert(s.take(k + 1).drop_last() == s.take(k));
    }
}

/// The position of the first `:` of `b` at or after `start`, or the length
/// of `b`.
fn field_end(b: &[u8], start: usize) -> (end: usize)
    requires
        start <= b.len(),
    ensures
        end == colon_from(b@, start as int),
        start <= end <= b.len(),
{
    let mut end = start;
    while end < b.len() && b[end] != 0x3a
        invariant
            start <= end <= b.len(),
            colon_from(b@, start as int) == colon_from(b@, end as int),
        decreases b.len() - end,
    {
        end += 1;
    }
    end
}

/// The number that the bytes `text` write, if they write one.
pub fn parse_number(text: &[u8]) -> (r: Option<i32>)
    ensures
        r == parse_i32(text@),
{
    let len = text.len();
    if len == 0 {
        return None;
    }
    let negative = text[0] == 0x2d;
    let first: usize = if text[0] == 0x2d || text[0] == 0x2b {
        1
    } else {
        0
    };
    let ghost digits = if first == 1 {
        text@.skip(1)
    } else {
        text@
    };
    if first == len {
        return None;
    }
    let mut acc: i64 = 0;
    let mut i: usize = first;
    while i < len
        invariant
            first <= i <= len,
            0 < len == text@.len(),
            first == (if text@[0] == 0x2d || text@[0] == 0x2b {
                1usize
            } else {
                0usize
            }),
            digits == (if first == 1 {
                text@.skip(1)
            } else {
                text@
            }),
            digits.len() == len - first,
            forall|j: int| 0 <= j < i - first ==> 0x30 <= #[trigger] digits[j] <= 0x39,
            acc == digits_value(digits.take(i - first)),
            0 <= acc <= 2147483648,
        decreases len - i,
    {
        let d = text[i];
        assert(digits[i - first] == d);
        if d < 0x30 || d > 0x39 {
            return None;
        }
        assert(digits.take(i - first + 1).drop_last() == digits.take(i - first));
        assert(digits.take(i - first + 1).last() == d);
        acc = acc * 10 + (d - 0x30) as i64;
        if acc > 2147483648 {
            proof {
                if is_digits(digits) {
                    lemma_digits_value_grows(digits, i - first + 1);
                }
            }
            return None;
        }
        i += 1;
    }
    assert(digits.take(digits.len() as int) == digits);
    if negative {
        Some((-acc) as i32)
    } else if acc > 2147483647 {
        None
    } else {
        Some(acc as i32)
    }
}

/// The bounds of the field that starts at `start`, and the start of the
/// field after it if there is one.
fn take_field(b: &[u8], start: Option<usize>, Ghost(n): Ghost<nat>) -> (r: (
    Option<(usize, usize)>,
    Option<usize>,
))
    requires
        match start {
            Some(p) => field_start(b@, n) == Some(p as int),
            None => field_start(b@, n) is None,
        },
    ensures
        match r.0 {
            Some((p, e)) => p <= e <= b.len() && field_start(b@, n) == Some(p as int) && e
                == colon_from(b@, p as int) && field(b@, n) == Some(
                b@.subrange(p as int, e as int),
            ),
            None => field(b@, n) is None,
        },
        match r.1 {
            Some(p) => field_start(b@, n + 1) == Some(p as int),
            None => field_start(b@, n + 1) is None,
        },
{
    proof {
        lemma_field_bounds(b@, n);
    }
    match start {
        None => (None, None),
        Some(p) => {
            let e = field_end(b, p);
            let next = if e < b.len() {
                Some(e + 1)
            } else {
                None
            };
            (Some((p, e)), next)
        },
    }
}

/// The number in the field with the bounds `range`, or `default`.
fn field_number(b: &[u8], range: Option<(usize, usize)>, default: i32) -> (v: i32)
    requires
        range matches Some((p, e)) ==> p <= e <= b.len(),
    ensures
        v == number_or(
            match range {
                Some((p, e)) => Some(b@.subrange(p as int, e as int)),
                None => None,
            },
            default,
        ),
{
    match range {
        None => default,
        Some((p, e)) => match parse_number(slice_subrange(b, p, e)) {
            Some(v) => v,
            None => default,
        },
    }
}

impl VttySerialOption {
    /// An option with no device and every setting 0.
    pub fn new() -> (option: Self)
        ensures
            option@ == (VttySerialOptionView {
                device: None,
                baudrate: 0,
                databits: 0,
                parity: 0,
                stopbits: 0,
                hwflow: 0,
            }),
    {
        VttySerialOption {
            device: None,
            baudrate: 0,
            databits: 0,
            parity: 0,
            stopbits: 0,
            hwflow: 0,
        }
    }

    /// Parse serial interface descriptor string.
    /// The string takes the form "device:baudrate:databits:parity:stopbits:hwflow";
    /// device is mandatory, other options are optional (default=9600,8,N,1,0).
    /// A string that names no device is refused, and the option stays as
    /// it is.
    pub fn parse(&mut self, optarg: &str) -> (r: Result<(), &'static str>)
        ensures
            r is Ok <==> names_device(optarg.spec_bytes()),
            r is Ok ==> final(self)@ == parsed(optarg.spec_bytes()),
            r is Err ==> final(self)@ == old(self)@ && r->Err_0@ == "invalid string"@,
    {
        let b = optarg.as_bytes();
        let (device, next) = take_field(b, Some(0), Ghost(0));
        let (baudrate, next) = take_field(b, next, Ghost(1));
        let (databits, next) = take_field(b, next, Ghost(2));
        let (parity, next) = take_field(b, next, Ghost(3));
        let (stopbits, next) = take_field(b, next, Ghost(4));
        let (hwflow, _) = take_field(b, next, Ghost(5));
        match device {
            Some((p, e)) => {
                if p == e {
                    return Err("invalid string");
                }
                self.device = Some(slice_to_vec(slice_subrange(b, p, e)));
            },
            None => {
                return Err("invalid string");
            },
        }
        self.baudrate = field_number(b, baudrate, 9600);
        self.databits = field_number(b, databits, 8);
        self.parity = match parity {
            Some((p, e)) => {
                if p == e {
                    0
                } else if b[p] == 0x6f || b[p] == 0x4f {
                    1  // odd
                } else if b[p] == 0x65 || b[p] == 0x45 {
                    2  // even
                } else {
                    0  // none
                }
            },
            None => 0,
        };
        self.stopbits = field_number(b, stopbits, 1);
        self.hwflow = field_number(b, hwflow, 0);
        Ok(())
    }
}

/// Parses the descriptor `optarg` into `option`. Returns 0, or -1 where the
/// descriptor names no device; `option` stays as it is then.
pub fn vtty_parse_serial_option(option: &mut VttySerialOption, optarg: &str) -> (r: i32)
    ensures
        r == (if names_device(optarg.spec_bytes()) {
            0i32
        } else {
            -1i32
        }),
        final(option)@ == (if names_device(optarg.spec_bytes()) {
            parsed(optarg.spec_bytes())
        } else {
            old(option)@
        }),
{
    match option.parse(optarg) {
        Ok(()) => 0,
        Err(_) => -1,
    }
}

/// Parity of a serial line.
#[derive(Debug, Clone, Copy, PartialEq, Eq, Structural)]
pub enum SerialParity {
    Off,
    Odd,
    Even,
}

/// Settings that a serial line can be given.
#[derive(Debug, Clone, Copy, PartialEq, Eq, Structural)]
pub struct SerialLine {
    /// Bits per second, one of the supported rates.
    pub baudrate: i32,
    /// Data bits per character, 5 to 8.
    pub databits: i32,
    pub parity: SerialParity,
    /// Stop bits, 1 or 2.
    pub stopbits: i32,
    /// Whether RTS/CTS flow control is on.
    pub hwflow: bool,
}

/// The setting that a serial line cannot be given, with the value asked for.
#[derive(Debug, Clone, Copy, PartialEq, Eq, Structural)]
pub enum SerialError {
    Baudrate(i32),
    Databits(i32),
    Parity(i32),
    Stopbits(i32),
}

/// Whether a serial line can run at `baudrate`. The rates 76800 and 230400
/// exist on some platforms only: `has_76800` and `has_230400` say whether
/// this one has them.
pub open spec fn baudrate_supported(baudrate: i32, has_76800: bool, has_230400: bool) -> bool {
    ||| baudrate == 50
    ||| baudrate == 75
    ||| baudrate == 110
    ||| baudrate == 134
    ||| baudrate == 150
    ||| baudrate == 200
    ||| baudrate == 300
    ||| baudrate == 600
    ||| baudrate == 1200
    ||| baudrate == 1800
    ||| baudrate == 2400
    ||| baudrate == 4800
    ||| baudrate == 9600
    ||| baudrate == 19200
    ||| baudrate == 38400
    ||| baudrate == 57600
    ||| (baudrate == 76800 && has_76800)
    ||| baudrate == 115200
    ||| (baudrate == 230400 && has_230400)
}

/// The parity that the number `parity` of an option stands for.
pub open spec fn parity_setting(parity: i32) -> SerialParity {
    if parity == 1 {
        SerialParity::Odd
    } else if parity == 2 {
        SerialParity::Even
    } else {
        SerialParity::Off
    }
}

/// The line settings that `option` asks for, or the first setting, in the
/// order baud rate, data bits, parity, stop bits, that a serial line cannot
/// be given.
pub open spec fn line_settings(option: VttySerialOptionView, has_76800: bool, has_230400: bool)
    -> Result<SerialLine, SerialError> {
    if !baudrate_supported(option.baudrate, has_76800, has_230400) {
        Err(SerialError::Baudrate(option.baudrate))
    } else if !(5 <= option.databits <= 8) {
        Err(SerialError::Databits(option.databits))
    } else if !(0 <= option.parity <= 2) {
        Err(SerialError::Parity(option.parity))
    } else if !(1 <= option.stopbits <= 2) {
        Err(SerialError::Stopbits(option.stopbits))
    } else {
        Ok(
            SerialLine {
                baudrate: option.baudrate,
                databits: option.databits,
                parity: parity_setting(option.parity),
                stopbits: option.stopbits,
                hwflow: option.hwflow != 0,
            },
        )
    }
}

/// Serial code.
pub struct VttySerial;

impl VttySerial {
    /// Setup serial port: the settings to give the line, or the setting
    /// that is not supported.
    pub fn setup(option: &VttySerialOption, has_76800: bool, has_230400: bool) -> (r: Result<
        SerialLine,
        SerialError,
    >)
        ensures
            r == line_settings(option@, has_76800, has_230400),
    {
        let baudrate = option.baudrate;
        let known = baudrate == 50 || baudrate == 75 || baudrate == 110 || baudrate == 134
            || baudrate == 150 || baudrate == 200 || baudrate == 300 || baudrate == 600 || baudrate
            == 1200 || baudrate == 1800 || baudrate == 2400 || baudrate == 4800 || baudrate == 9600
            || baudrate == 19200 || baudrate == 38400 || baudrate == 57600 || (baudrate == 76800
            && has_76800) || baudrate == 115200 || (baudrate == 230400 && has_230400);
        if !known {
            return Err(SerialError::Baudrate(baudrate));
        }
        if option.databits < 5 || option.databits > 8 {
            return Err(SerialError::Databits(option.databits));
        }
        let parity = if option.parity == 0 {
            SerialParity::Off
        } else if option.parity == 2 {
            SerialParity::Even
        } else if option.parity == 1 {
            SerialParity::Odd
        } else {
            return Err(SerialError::Parity(option.parity));
        };
        if option.stopbits != 1 && option.stopbits != 2 {
            return Err(SerialError::Stopbits(option.stopbits));
        }
        Ok(
            SerialLine {
                baudrate,
                databits: option.databits,
                parity,
                stopbits: option.stopbits,
                hwflow: option.hwflow != 0,
            },
        )
    }
}

} // verus!
