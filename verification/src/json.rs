//! Rendering a notification as its JSON wire form: an object with the
//! keys `username`, `channel` and `blocks`, where each block carries
//! `type` together with exactly one of `text` or `fields`.

use crate::message::{Block, BlockModel, Notification, NotificationModel};
use vstd::prelude::*;
use vstd::string::*;

verus! {

/// The hexadecimal digit character for a value below sixteen.
pub open spec fn hex_digit(d: nat) -> char {
    if d == 0 {
        '0'
    } else if d == 1 {
        '1'
    } else if d == 2 {
        '2'
    } else if d == 3 {
        '3'
    } else if d == 4 {
        '4'
    } else if d == 5 {
        '5'
    } else if d == 6 {
        '6'
    } else if d == 7 {
        '7'
    } else if d == 8 {
        '8'
    } else if d == 9 {
        '9'
    } else if d == 10 {
        'a'
    } else if d == 11 {
        'b'
    } else if d == 12 {
        'c'
    } else if d == 13 {
        'd'
    } else if d == 14 {
        'e'
    } else {
        'f'
    }
}

/// How one character appears inside a JSON string literal: quote,
/// backslash and control characters are escaped, everything else
/// stands as itself.
pub open spec fn escaped_char(c: char) -> Seq<char> {
    if c == '"' {
        seq!['\\', '"']
    } else if c == '\\' {
        seq!['\\', '\\']
    } else if c == '\n' {
        seq!['\\', 'n']
    } else if c == '\r' {
        seq!['\\', 'r']
    } else if c == '\t' {
        seq!['\\', 't']
    } else if (c as u32) < 32 {
        seq!['\\', 'u', '0', '0', hex_digit((c as u32 / 16) as nat), hex_digit(
            (c as u32 % 16) as nat,
        )]
    } else {
        seq![c]
    }
}

/// The body of a JSON string literal holding `s`.
pub open spec fn escaped(s: Seq<char>) -> Seq<char>
    decreases s.len(),
{
    if s.len() == 0 {
        Seq::empty()
    } else {
        escaped(s.drop_last()) + escaped_char(s.last())
    }
}

/// The JSON string literal holding `s`, quotes included.
pub open spec fn json_string(s: Seq<char>) -> Seq<char> {
    seq!['"'] + escaped(s) + seq!['"']
}

/// The JSON object for one formatted text entry.
pub open spec fn entry_json(t: Seq<char>) -> Seq<char> {
    "{\"type\":\"mrkdwn\",\"text\":"@ + json_string(t) + "}"@
}

/// The items comma-joined, as JSON array elements are.
pub open spec fn joined(items: Seq<Seq<char>>) -> Seq<char>
    decreases items.len(),
{
    if items.len() == 0 {
        Seq::empty()
    } else if items.len() == 1 {
        items[0]
    } else {
        joined(items.drop_last()) + seq![','] + items.last()
    }
}

/// The JSON object for one content block. A text block carries the
/// `text` key and no `fields` key; a fields block the reverse.
pub open spec fn block_json(b: BlockModel) -> Seq<char> {
    match b {
        BlockModel::Text(t) => "{\"type\":\"section\",\"text\":"@ + entry_json(t) + "}"@,
        BlockModel::Fields(ts) => "{\"type\":\"section\",\"fields\":["@ + joined(
            ts.map_values(|t: Seq<char>| entry_json(t)),
        ) + "]}"@,
    }
}

/// The JSON object for a whole notification: exactly the keys
/// `username`, `channel` and `blocks`, in that order.
pub open spec fn notification_json(n: NotificationModel) -> Seq<char> {
    "{\"username\":"@ + json_string(n.username) + ",\"channel\":"@ + json_string(n.channel)
        + ",\"blocks\":["@ + joined(n.blocks.map_values(|b: BlockModel| block_json(b))) + "]}"@
}

/// The value of one lower-case hexadecimal digit character, if it is
/// one.
pub open spec fn hex_val(c: char) -> Option<nat> {
    if c == '0' {
        Option::Some(0 as nat)
    } else if c == '1' {
        Option::Some(1 as nat)
    } else if c == '2' {
        Option::Some(2 as nat)
    } else if c == '3' {
        Option::Some(3 as nat)
    } else if c == '4' {
        Option::Some(4 as nat)
    } else if c == '5' {
        Option::Some(5 as nat)
    } else if c == '6' {
        Option::Some(6 as nat)
    } else if c == '7' {
        Option::Some(7 as nat)
    } else if c == '8' {
        Option::Some(8 as nat)
    } else if c == '9' {
        Option::Some(9 as nat)
    } else if c == 'a' {
        Option::Some(10 as nat)
    } else if c == 'b' {
        Option::Some(11 as nat)
    } else if c == 'c' {
        Option::Some(12 as nat)
    } else if c == 'd' {
        Option::Some(13 as nat)
    } else if c == 'e' {
        Option::Some(14 as nat)
    } else if c == 'f' {
        Option::Some(15 as nat)
    } else {
        Option::None
    }
}

/// The character `c` put in front of a decoding result, if there is
/// one.
pub open spec fn prepended(c: char, r: Option<Seq<char>>) -> Option<Seq<char>> {
    match r {
        Option::Some(t) => Option::Some(seq![c] + t),
        Option::None => Option::None,
    }
}

/// A strict reading of a JSON string literal body under the escape
/// grammar the serializer emits: a bare quote or a bare control
/// character, or a malformed escape, is rejected.
pub open spec fn unescaped(e: Seq<char>) -> Option<Seq<char>>
    decreases e.len(),
{
    if e.len() == 0 {
        Option::Some(Seq::empty())
    } else if e[0] == '\\' {
        if e.len() >= 2 && e[1] == '"' {
            prepended('"', unescaped(e.skip(2)))
        } else if e.len() >= 2 && e[1] == '\\' {
            prepended('\\', unescaped(e.skip(2)))
        } else if e.len() >= 2 && e[1] == 'n' {
            prepended('\n', unescaped(e.skip(2)))
        } else if e.len() >= 2 && e[1] == 'r' {
            prepended('\r', unescaped(e.skip(2)))
        } else if e.len() >= 2 && e[1] == 't' {
            prepended('\t', unescaped(e.skip(2)))
        } else if e.len() >= 6 && e[1] == 'u' && hex_val(e[2]) is Some && hex_val(e[3]) is Some
            && hex_val(e[4]) is Some && hex_val(e[5]) is Some {
            let code = hex_val(e[2])->0 * 4096 + hex_val(e[3])->0 * 256 + hex_val(e[4])->0 * 16
                + hex_val(e[5])->0;
            if code < 0xD800 {
                prepended(code as char, unescaped(e.skip(6)))
            } else {
                Option::None
            }
        } else {
            Option::None
        }
    } else if e[0] == '"' || (e[0] as u32) < 32 {
        Option::None
    } else {
        prepended(e[0], unescaped(e.skip(1)))
    }
}

/// Reading a hexadecimal digit character back gives the digit's
/// value.
proof fn lemma_hex_val_digit(x: nat)
    requires
        x < 16,
    ensures
        hex_val(hex_digit(x)) == Option::Some(x),
{
}

/// A control character is recovered from its code point.
proof fn lemma_low_code_char(c: char)
    requires
        (c as u32) < 32,
    ensures
        ((c as u32) as nat) as char == c,
{
}

/// The escaped body, unfolded at its first character rather than its
/// last.
proof fn lemma_escaped_first(s: Seq<char>)
    requires
        s.len() > 0,
    ensures
        escaped(s) == escaped_char(s[0]) + escaped(s.drop_first()),
    decreases s.len(),
{
    if s.len() == 1 {
        assert(s.drop_last() =~= Seq::<char>::empty());
        assert(s.drop_first() =~= Seq::<char>::empty());
        assert(escaped(s) =~= escaped_char(s[0]) + escaped(s.drop_first()));
    } else {
        let d = s.drop_last();
        lemma_escaped_first(d);
        assert(d.drop_first() =~= s.drop_first().drop_last());
        assert(s.drop_first().last() == s.last());
        assert(escaped(s) =~= escaped_char(s[0]) + escaped(s.drop_first()));
    }
}

/// Law: reading the escaped body back gives exactly the original
/// characters; escaping loses nothing.
pub proof fn lemma_escape_round_trip(s: Seq<char>)
    ensures
        unescaped(escaped(s)) == Option::Some(s),
    decreases s.len(),
{
    if s.len() == 0 {
        assert(escaped(s) =~= Seq::<char>::empty());
    } else {
        let c = s[0];
        let rest = s.drop_first();
        lemma_escaped_first(s);
        lemma_escape_round_trip(rest);
        let e = escaped(s);
        if c == '"' || c == '\\' || c == '\n' || c == '\r' || c == '\t' {
            assert(e.skip(2) =~= escaped(rest));
            assert(unescaped(e) == Option::Some(seq![c] + rest));
        } else if (c as u32) < 32 {
            assert(e.skip(6) =~= escaped(rest));
            let hi = (c as u32 / 16) as nat;
            let lo = (c as u32 % 16) as nat;
            lemma_hex_val_digit(hi);
            lemma_hex_val_digit(lo);
            assert(e[2] == '0' && e[3] == '0' && e[4] == hex_digit(hi) && e[5] == hex_digit(lo));
            assert(hex_val(e[2]) == Option::Some(0 as nat) && hex_val(e[3]) == Option::Some(
                0 as nat,
            ));
            let code = hex_val(e[2])->0 * 4096 + hex_val(e[3])->0 * 256 + hex_val(e[4])->0 * 16
                + hex_val(e[5])->0;
            assert(code == 16 * hi + lo);
            assert(16 * hi + lo == c as u32);
            let n = (c as u32) as nat;
            assert(code == n);
            lemma_low_code_char(c);
            assert(code as char == c);
            assert(unescaped(e) == Option::Some(seq![c] + rest));
        } else {
            assert(e.skip(1) =~= escaped(rest));
            assert(unescaped(e) == Option::Some(seq![c] + rest));
        }
        assert(seq![c] + rest =~= s);
    }
}

/// Law: a serialized JSON string literal is quote-delimited, and its
/// body reads back as exactly the original characters.
pub proof fn lemma_json_string_round_trip(s: Seq<char>)
    ensures
        json_string(s).len() >= 2,
        json_string(s).first() == '"',
        json_string(s).last() == '"',
        unescaped(json_string(s).subrange(1, json_string(s).len() - 1)) == Option::Some(s),
{
    assert(json_string(s).subrange(1, json_string(s).len() - 1) =~= escaped(s));
    lemma_escape_round_trip(s);
}

fn hex_digit_exec(d: u32) -> (c: char)
    requires
        d < 16,
    ensures
        c == hex_digit(d as nat),
{
    if d == 0 {
        '0'
    } else if d == 1 {
        '1'
    } else if d == 2 {
        '2'
    } else if d == 3 {
        '3'
    } else if d == 4 {
        '4'
    } else if d == 5 {
        '5'
    } else if d == 6 {
        '6'
    } else if d == 7 {
        '7'
    } else if d == 8 {
        '8'
    } else if d == 9 {
        '9'
    } else if d == 10 {
        'a'
    } else if d == 11 {
        'b'
    } else if d == 12 {
        'c'
    } else if d == 13 {
        'd'
    } else if d == 14 {
        'e'
    } else {
        'f'
    }
}

fn append_escaped_char(out: &mut String, c: char)
    ensures
        final(out)@ == old(out)@ + escaped_char(c),
{
    if c == '"' {
        out.push('\\');
        out.push('"');
    } else if c == '\\' {
        out.push('\\');
        out.push('\\');
    } else if c == '\n' {
        out.push('\\');
        out.push('n');
    } else if c == '\r' {
        out.push('\\');
        out.push('r');
    } else if c == '\t' {
        out.push('\\');
        out.push('t');
    } else if (c as u32) < 32 {
        let code: u32 = c as u32;
        out.push('\\');
        out.push('u');
        out.push('0');
        out.push('0');
        let hi = hex_digit_exec(code / 16);
        out.push(hi);
        let lo = hex_digit_exec(code % 16);
        out.push(lo);
    } else {
        out.push(c);
    }
    proof {
        assert(out@ =~= old(out)@ + escaped_char(c));
    }
}

fn append_escaped(out: &mut String, s: &str)
    ensures
        final(out)@ == old(out)@ + escaped(s@),
{
    let n = s.unicode_len();
    let mut i: usize = 0;
    while i < n
        invariant
            n == s@.len(),
            i <= n,
            out@ == old(out)@ + escaped(s@.take(i as int)),
        decreases n - i,
    {
        let c = s.get_char(i);
        append_escaped_char(out, c);
        i = i + 1;
        proof {
            assert(s@.take(i as int).drop_last() =~= s@.take(i as int - 1));
            assert(out@ =~= old(out)@ + escaped(s@.take(i as int)));
        }
    }
    proof {
        assert(s@.take(n as int) =~= s@);
    }
}

fn append_json_string(out: &mut String, s: &str)
    ensures
        final(out)@ == old(out)@ + json_string(s@),
{
    out.push('"');
    append_escaped(out, s);
    out.push('"');
    proof {
        assert(out@ =~= old(out)@ + json_string(s@));
    }
}

fn append_entry_json(out: &mut String, t: &str)
    ensures
        final(out)@ == old(out)@ + entry_json(t@),
{
    out.append("{\"type\":\"mrkdwn\",\"text\":");
    append_json_string(out, t);
    out.append("}");
    proof {
        assert(out@ =~= old(out)@ + entry_json(t@));
    }
}

fn append_block_json(out: &mut String, b: &Block)
    ensures
        final(out)@ == old(out)@ + block_json(b@),
{
    match b {
        Block::Text(t) => {
            out.append("{\"type\":\"section\",\"text\":");
            append_entry_json(out, t.as_str());
            out.append("}");
            proof {
                assert(out@ =~= old(out)@ + block_json(b@));
            }
        },
        Block::Fields(fs) => {
            let ghost entries = fs.deep_view().map_values(|t: Seq<char>| entry_json(t));
            out.append("{\"type\":\"section\",\"fields\":[");
            let mut i: usize = 0;
            while i < fs.len()
                invariant
                    i <= fs@.len(),
                    entries == fs.deep_view().map_values(|t: Seq<char>| entry_json(t)),
                    entries.len() == fs@.len(),
                    out@ == old(out)@ + "{\"type\":\"section\",\"fields\":["@ + joined(
                        entries.take(i as int),
                    ),
                decreases fs@.len() - i,
            {
                if i > 0 {
                    out.push(',');
                }
                let f: &String = &fs[i];
                append_entry_json(out, f.as_str());
                i = i + 1;
                proof {
                    assert(entries.take(i as int).drop_last() =~= entries.take(i as int - 1));
                    assert(entries.take(i as int).last() == entry_json(fs.deep_view()[i - 1]));
                    assert(out@ =~= old(out)@ + "{\"type\":\"section\",\"fields\":["@ + joined(
                        entries.take(i as int),
                    ));
                }
            }
            out.append("]}");
            proof {
                assert(entries.take(fs@.len() as int) =~= entries);
                assert(out@ =~= old(out)@ + block_json(b@));
            }
        },
    }
}

/// Serializes the notification to its JSON wire form.
pub fn to_json(n: &Notification) -> (r: String)
    ensures
        r@ == notification_json(n@),
{
    let ghost bjs = n@.blocks.map_values(|b: BlockModel| block_json(b));
    let mut out = String::from_str("{\"username\":");
    append_json_string(&mut out, n.username.as_str());
    out.append(",\"channel\":");
    append_json_string(&mut out, n.channel.as_str());
    out.append(",\"blocks\":[");
    let ghost mid = out@;
    let mut i: usize = 0;
    while i < n.blocks.len()
        invariant
            i <= n.blocks@.len(),
            bjs == n@.blocks.map_values(|b: BlockModel| block_json(b)),
            bjs.len() == n.blocks@.len(),
            out@ == mid + joined(bjs.take(i as int)),
        decreases n.blocks@.len() - i,
    {
        if i > 0 {
            out.push(',');
        }
        let b: &Block = &n.blocks[i];
        append_block_json(&mut out, b);
        i = i + 1;
        proof {
            assert(bjs.take(i as int).drop_last() =~= bjs.take(i as int - 1));
            assert(bjs.take(i as int).last() == block_json(n.blocks.deep_view()[i - 1]));
            assert(out@ =~= mid + joined(bjs.take(i as int)));
        }
    }
    out.append("]}");
    proof {
        assert(bjs.take(n.blocks@.len() as int) =~= bjs);
        assert(out@ =~= notification_json(n@));
    }
    out
}

} // verus!
