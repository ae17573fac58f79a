//! Rendering of a decoded record as one field-aligned summary line.
//!
//! The line layout is fixed: both addresses in dotted-decimal form padded
//! to width 15, both ports in decimal padded to width 5, a direction tag
//! and a protocol tag, and the payload byte count padded to width 5. The
//! tags are decorated with a fixed color per value through the `colored`
//! crate; the color codes are cosmetic, so the contract of the decorated
//! line only pins the plain skeleton and demands that each decorated tag
//! still contain its plain text.

use crate::packet::Packet;
use crate::packet::PacketDirection;
use crate::packet::Protocol;
use colored::Colorize;
use vstd::prelude::*;
use vstd::string::StrSliceExecFns;
use vstd::string::StringExecFns;

verus! {

/// The character for one decimal digit.
pub open spec fn spec_digit_char(d: int) -> char
    recommends
        0 <= d < 10,
{
    if d == 0 {
        '0'
    } else if d == 1 {
        '1'
    } else if d == 2 {
        '2'
    } else if d == 3 {
        '3'
    } else if d == 4 {
        '4'
    } else if d == 5 {
        '5'
    } else if d == 6 {
        '6'
    } else if d == 7 {
        '7'
    } else if d == 8 {
        '8'
    } else {
        '9'
    }
}

/// The decimal rendering of a nonnegative integer, without leading
/// zeros (a single `'0'` for zero).
pub open spec fn spec_dec(n: int) -> Seq<char>
    recommends
        n >= 0,
    decreases n,
{
    if n < 10 {
        seq![spec_digit_char(n)]
    } else {
        spec_dec(n / 10) + seq![spec_digit_char(n % 10)]
    }
}

/// `n` spaces (none when `n` is not positive).
pub open spec fn spec_spaces(n: int) -> Seq<char>
    decreases n,
{
    if n <= 0 {
        Seq::empty()
    } else {
        spec_spaces(n - 1) + seq![' ']
    }
}

/// `s` left-padded with spaces to width `width`; `s` itself when it is
/// already that wide.
pub open spec fn spec_pad_left(s: Seq<char>, width: int) -> Seq<char> {
    spec_spaces(width - s.len()) + s
}

/// The dotted-decimal rendering of four address octets.
pub open spec fn spec_ip(ip: Seq<u8>) -> Seq<char>
    recommends
        ip.len() == 4,
{
    spec_dec(ip[0] as int) + seq!['.'] + spec_dec(ip[1] as int) + seq!['.'] + spec_dec(
        ip[2] as int,
    ) + seq!['.'] + spec_dec(ip[3] as int)
}

/// The plain text of a direction tag.
pub open spec fn spec_direction_label(d: PacketDirection) -> Seq<char> {
    match d {
        PacketDirection::Send => "Send"@,
        PacketDirection::Receive => "Receive"@,
        PacketDirection::Both => "Both"@,
    }
}

/// The plain text of a protocol tag.
pub open spec fn spec_protocol_label(p: Protocol) -> Seq<char> {
    match p {
        Protocol::TCP => "TCP"@,
        Protocol::UDP => "UDP"@,
        Protocol::Unknown => "Unknown"@,
    }
}

/// Holds no ANSI escape character, so a color decoration cannot rewrite
/// any part of it.
pub open spec fn esc_free(s: Seq<char>) -> bool {
    forall|i: int| 0 <= i < s.len() ==> s[i] != '\u{1b}'
}

/// `needle` occurs contiguously somewhere in `hay`.
pub open spec fn contains_seq(hay: Seq<char>, needle: Seq<char>) -> bool {
    exists|i: int|
        0 <= i && i + needle.len() <= hay.len() && #[trigger] hay.subrange(i, i + needle.len())
            == needle
}

/// The whole summary line for a record, given the (possibly decorated)
/// direction and protocol tags.
pub open spec fn spec_line(p: Packet, dir: Seq<char>, proto: Seq<char>) -> Seq<char> {
    "|  "@ + spec_pad_left(spec_ip(p.src_ip@), 15) + ":"@ + spec_pad_left(
        spec_dec(p.src_port as int),
        5,
    ) + "  |  ------->|  "@ + spec_pad_left(spec_ip(p.dst_ip@), 15) + ":"@ + spec_pad_left(
        spec_dec(p.dst_port as int),
        5,
    ) + "  | Direction: "@ + dir + " |  Protocol: "@ + proto + " |    "@ + spec_pad_left(
        spec_dec(p.payload@.len() as int),
        5,
    ) + " bytes"@
}

/// The one-character string of one decimal digit.
fn digit_str(d: u8) -> (r: &'static str)
    requires
        d < 10,
    ensures
        r@ == seq![spec_digit_char(d as int)],
{
    let s: &'static str = match d {
        0 => "0",
        1 => "1",
        2 => "2",
        3 => "3",
        4 => "4",
        5 => "5",
        6 => "6",
        7 => "7",
        8 => "8",
        _ => "9",
    };
    proof {
        reveal_strlit("0");
        reveal_strlit("1");
        reveal_strlit("2");
        reveal_strlit("3");
        reveal_strlit("4");
        reveal_strlit("5");
        reveal_strlit("6");
        reveal_strlit("7");
        reveal_strlit("8");
        reveal_strlit("9");
        assert(s@ =~= seq![spec_digit_char(d as int)]);
    }
    s
}

/// Renders a nonnegative integer in decimal, without leading zeros.
pub fn dec_string(n: u64) -> (r: String)
    ensures
        r@ == spec_dec(n as int),
    decreases n,
{
    if n < 10 {
        String::from_str(digit_str(n as u8))
    } else {
        let mut s = dec_string(n / 10);
        s.append(digit_str((n % 10) as u8));
        s
    }
}

/// Renders four address octets in dotted-decimal form.
pub fn ip_to_string(ip: &[u8; 4]) -> (r: String)
    ensures
        r@ == spec_ip(ip@),
{
    let mut s = dec_string(ip[0] as u64);
    s.append(".");
    let o1 = dec_string(ip[1] as u64);
    s.append(o1.as_str());
    s.append(".");
    let o2 = dec_string(ip[2] as u64);
    s.append(o2.as_str());
    s.append(".");
    let o3 = dec_string(ip[3] as u64);
    s.append(o3.as_str());
    proof {
        reveal_strlit(".");
        assert("."@ =~= seq!['.']);
    }
    s
}

/// Left-pads a string with spaces to the given width.
pub fn pad_left(s: String, width: usize) -> (r: String)
    ensures
        r@ == spec_pad_left(s@, width as int),
{
    let n = s.as_str().unicode_len();
    if n >= width {
        proof {
            assert(spec_spaces(width - s@.len()) =~= Seq::<char>::empty());
            assert(spec_pad_left(s@, width as int) =~= s@);
        }
        return s;
    }
    let mut pad = String::new();
    let mut k: usize = 0;
    proof {
        assert(pad@ =~= spec_spaces(0));
    }
    while k < width - n
        invariant
            n == s@.len(),
            n < width,
            k <= width - n,
            pad@ == spec_spaces(k as int),
        decreases width - n - k,
    {
        pad.append(" ");
        k = k + 1;
        proof {
            reveal_strlit(" ");
            assert(" "@ =~= seq![' ']);
        }
    }
    let r = pad.concat(s.as_str());
    proof {
        assert(r@ =~= spec_pad_left(s@, width as int));
    }
    r
}

/// The plain text of a record's direction tag, free of escape characters.
pub fn direction_label(d: PacketDirection) -> (r: &'static str)
    ensures
        r@ == spec_direction_label(d),
        esc_free(r@),
{
    match d {
        PacketDirection::Send => {
            proof {
                reveal_strlit("Send");
                assert("Send"@ =~= seq!['S', 'e', 'n', 'd']);
            }
            "Send"
        },
        PacketDirection::Receive => {
            proof {
                reveal_strlit("Receive");
                assert("Receive"@ =~= seq!['R', 'e', 'c', 'e', 'i', 'v', 'e']);
            }
            "Receive"
        },
        PacketDirection::Both => {
            proof {
                reveal_strlit("Both");
                assert("Both"@ =~= seq!['B', 'o', 't', 'h']);
            }
            "Both"
        },
    }
}

/// The plain text of a record's protocol tag, free of escape characters.
pub fn protocol_label(p: Protocol) -> (r: &'static str)
    ensures
        r@ == spec_protocol_label(p),
        esc_free(r@),
{
    match p {
        Protocol::TCP => {
            proof {
                reveal_strlit("TCP");
                assert("TCP"@ =~= seq!['T', 'C', 'P']);
            }
            "TCP"
        },
        Protocol::UDP => {
            proof {
                reveal_strlit("UDP");
                assert("UDP"@ =~= seq!['U', 'D', 'P']);
            }
            "UDP"
        },
        Protocol::Unknown => {
            proof {
                reveal_strlit("Unknown");
                assert("Unknown"@ =~= seq!['U', 'n', 'k', 'n', 'o', 'w', 'n']);
            }
            "Unknown"
        },
    }
}

/// Relies on colored's `Colorize::green` and the `Display` of the
/// `ColoredString` it returns: the output is either the input itself
/// (coloring disabled) or an ANSI style prefix, the input, and a reset
/// suffix; an escape-free input passes through unrewritten either way.
#[verifier::external_body]
fn paint_green(s: &str) -> (r: String)
    requires
        esc_free(s@),
    ensures
        contains_seq(r@, s@),
{
    format!("{}", s.green())
}

/// Relies on colored's `Colorize::red`, rendered as in `paint_green`.
#[verifier::external_body]
fn paint_red(s: &str) -> (r: String)
    requires
        esc_free(s@),
    ensures
        contains_seq(r@, s@),
{
    format!("{}", s.red())
}

/// Relies on colored's `Colorize::yellow`, rendered as in `paint_green`.
#[verifier::external_body]
fn paint_yellow(s: &str) -> (r: String)
    requires
        esc_free(s@),
    ensures
        contains_seq(r@, s@),
{
    format!("{}", s.yellow())
}

impl Packet {
    /// Builds the summary line around the two tag strings exactly as
    /// given, with every other field pinned down by `spec_line`.
    pub fn render_with_tags(&self, dir: &str, proto: &str) -> (r: String)
        ensures
            r@ == spec_line(*self, dir@, proto@),
    {
        let mut line = String::from_str("|  ");
        let src_ip_s = pad_left(ip_to_string(&self.src_ip), 15);
        line.append(src_ip_s.as_str());
        line.append(":");
        let src_port_s = pad_left(dec_string(self.src_port as u64), 5);
        line.append(src_port_s.as_str());
        line.append("  |  ------->|  ");
        let dst_ip_s = pad_left(ip_to_string(&self.dst_ip), 15);
        line.append(dst_ip_s.as_str());
        line.append(":");
        let dst_port_s = pad_left(dec_string(self.dst_port as u64), 5);
        line.append(dst_port_s.as_str());
        line.append("  | Direction: ");
        line.append(dir);
        line.append(" |  Protocol: ");
        line.append(proto);
        line.append(" |    ");
        let count_s = pad_left(dec_string(self.payload.len() as u64), 5);
        line.append(count_s.as_str());
        line.append(" bytes");
        line
    }

    /// Renders the record with its color-decorated tags: the result is
    /// the summary line built around some pair of decorated tags, each of
    /// which still contains its plain text.
    pub fn render(&self) -> (r: String)
        ensures
            exists|dir: Seq<char>, proto: Seq<char>|
                contains_seq(dir, spec_direction_label(self.direction)) && contains_seq(
                    proto,
                    spec_protocol_label(self.protocol),
                ) && r@ == spec_line(*self, dir, proto),
    {
        let dir_plain = direction_label(self.direction);
        let dir = match self.direction {
            PacketDirection::Send => paint_green(dir_plain),
            PacketDirection::Receive => paint_red(dir_plain),
            PacketDirection::Both => paint_yellow(dir_plain),
        };
        let proto_plain = protocol_label(self.protocol);
        let proto = match self.protocol {
            Protocol::TCP => paint_green(proto_plain),
            Protocol::UDP => paint_red(proto_plain),
            Protocol::Unknown => paint_yellow(proto_plain),
        };
        let r = self.render_with_tags(dir.as_str(), proto.as_str());
        proof {
            assert(contains_seq(dir@, spec_direction_label(self.direction)) && contains_seq(
                proto@,
                spec_protocol_label(self.protocol),
            ) && r@ == spec_line(*self, dir@, proto@));
        }
        r
    }
}

} // verus!
