//! Writing client batches: a JSON array of `cmd`-tagged message objects, in
//! compact form, with members in declaration order.
use vstd::prelude::*;
use crate::messages::{APClientMessage, Connect, Version};

verus! {

/// The JSON string literal that `serde_json::to_string` writes for `s`,
/// quotes and escapes included.
pub uninterp spec fn json_quoted(s: Seq<char>) -> Seq<char>;

/// Relies on `serde_json::to_string` on a `str`: it writes the escaped string
/// literal into a byte vector, which cannot fail.
#[verifier::external_body]
fn quote(s: &str) -> (r: String)
    ensures
        r@ == json_quoted(s@),
{
    match serde_json::to_string(s) {
        Ok(t) => t,
        Err(_) => String::new(),
    }
}

pub open spec fn digit(d: nat) -> char {
    if d == 0 {
        '0'
    } else if d == 1 {
        '1'
    } else if d == 2 {
        '2'
    } else if d == 3 {
        '3'
    } else if d == 4 {
        '4'
    } else if d == 5 {
        '5'
    } else if d == 6 {
        '6'
    } else if d == 7 {
        '7'
    } else if d == 8 {
        '8'
    } else {
        '9'
    }
}

/// The decimal digits of `n`, without leading zeros.
pub open spec fn decimal(n: nat) -> Seq<char>
    decreases n,
{
    if n < 10 {
        seq![digit(n)]
    } else {
        decimal(n / 10).push(digit(n % 10))
    }
}

/// Relies on `ToString` for `u32`, that is its `Display`: the decimal digits,
/// with no sign, padding or leading zeros.
#[verifier::external_body]
fn decimal_text(n: u32) -> (r: String)
    ensures
        r@ == decimal(n as nat),
{
    n.to_string()
}

pub open spec fn bool_text(b: bool) -> Seq<char> {
    if b {
        "true"@
    } else {
        "false"@
    }
}

/// The elements of `ts` as string literals, separated by commas.
pub open spec fn quoted_list(ts: Seq<Seq<char>>) -> Seq<char>
    decreases ts.len(),
{
    if ts.len() == 0 {
        Seq::empty()
    } else if ts.len() == 1 {
        json_quoted(ts[0])
    } else {
        quoted_list(ts.drop_last()) + ","@ + json_quoted(ts.last())
    }
}

pub open spec fn version_text(v: Version) -> Seq<char> {
    "{\"class\":\"Version\",\"major\":"@ + decimal(v.major as nat) + ",\"minor\":"@ + decimal(
        v.minor as nat,
    ) + ",\"build\":"@ + decimal(v.build as nat) + "}"@
}

/// The object of a `Connect` message with the given field values.
pub open spec fn connect_text_of(
    name: Seq<char>,
    password: Seq<char>,
    game: Seq<char>,
    uuid: Seq<char>,
    version: Version,
    items_handling: u32,
    tags: Seq<Seq<char>>,
    slot_data: bool,
) -> Seq<char> {
    "{\"cmd\":\"Connect\",\"name\":"@ + json_quoted(name) + ",\"password\":"@ + json_quoted(password)
        + ",\"game\":"@ + json_quoted(game) + ",\"uuid\":"@ + json_quoted(uuid) + ",\"version\":"@
        + version_text(version) + ",\"items_handling\":"@ + decimal(items_handling as nat)
        + ",\"tags\":["@ + quoted_list(tags) + "],\"slot_data\":"@ + bool_text(slot_data) + "}"@
}

pub open spec fn tag_views(tags: Seq<String>) -> Seq<Seq<char>> {
    tags.map_values(|t: String| t@)
}

pub open spec fn client_message_text(m: APClientMessage) -> Seq<char> {
    match m {
        APClientMessage::Connect(c) => connect_text_of(
            c.name@,
            c.password@,
            c.game@,
            c.uuid@,
            c.version,
            c.items_handling,
            tag_views(c.tags@),
            c.slot_data,
        ),
    }
}

/// The messages' objects, separated by commas.
pub open spec fn message_list(ms: Seq<APClientMessage>) -> Seq<char>
    decreases ms.len(),
{
    if ms.len() == 0 {
        Seq::empty()
    } else if ms.len() == 1 {
        client_message_text(ms[0])
    } else {
        message_list(ms.drop_last()) + ","@ + client_message_text(ms.last())
    }
}

/// The frame text of a batch of client messages.
pub open spec fn client_batch_text(ms: Seq<APClientMessage>) -> Seq<char> {
    "["@ + message_list(ms) + "]"@
}

fn write_decimal(out: &mut String, n: u32)
    ensures
        final(out)@ == old(out)@ + decimal(n as nat),
{
    let t = decimal_text(n);
    out.append(t.as_str());
}

fn write_quoted(out: &mut String, s: &str)
    ensures
        final(out)@ == old(out)@ + json_quoted(s@),
{
    let t = quote(s);
    out.append(t.as_str());
}

fn write_version(out: &mut String, v: &Version)
    ensures
        final(out)@ == old(out)@ + version_text(*v),
{
    let ghost start = out@;
    out.append("{\"class\":\"Version\",\"major\":");
    write_decimal(out, v.major);
    out.append(",\"minor\":");
    write_decimal(out, v.minor);
    out.append(",\"build\":");
    write_decimal(out, v.build);
    out.append("}");
    assert(out@ =~= start + version_text(*v));
}

fn write_tags(out: &mut String, tags: &Vec<String>)
    ensures
        final(out)@ == old(out)@ + quoted_list(tag_views(tags@)),
{
    let ghost start = out@;
    let mut i: usize = 0;
    while i < tags.len()
        invariant
            i <= tags@.len(),
            out@ == start + quoted_list(tag_views(tags@.take(i as int))),
        decreases tags.len() - i,
    {
        let ghost before = out@;
        if i > 0 {
            out.append(",");
        }
        write_quoted(out, tags[i].as_str());
        proof {
            let prefix = tags@.take(i as int + 1);
            assert(prefix.drop_last() =~= tags@.take(i as int));
            assert(tag_views(prefix).drop_last() =~= tag_views(prefix.drop_last()));
            assert(tag_views(prefix).last() == tags@[i as int]@);
            if i == 0 {
                assert(tag_views(tags@.take(0)) =~= Seq::<Seq<char>>::empty());
                assert(out@ =~= start + quoted_list(tag_views(prefix)));
            } else {
                assert(out@ =~= start + quoted_list(tag_views(prefix)));
            }
        }
        i += 1;
    }
    assert(tags@.take(tags@.len() as int) =~= tags@);
}

fn write_message(out: &mut String, m: &APClientMessage)
    ensures
        final(out)@ == old(out)@ + client_message_text(*m),
{
    let ghost start = out@;
    match m {
        APClientMessage::Connect(c) => {
            out.append("{\"cmd\":\"Connect\",\"name\":");
            write_quoted(out, c.name.as_str());
            out.append(",\"password\":");
            write_quoted(out, c.password.as_str());
            out.append(",\"game\":");
            write_quoted(out, c.game.as_str());
            out.append(",\"uuid\":");
            write_quoted(out, c.uuid.as_str());
            out.append(",\"version\":");
            write_version(out, &c.version);
            out.append(",\"items_handling\":");
            write_decimal(out, c.items_handling);
            out.append(",\"tags\":[");
            write_tags(out, &c.tags);
            out.append("],\"slot_data\":");
            if c.slot_data {
                out.append("true");
            } else {
                out.append("false");
            }
            out.append("}");
            assert(out@ =~= start + client_message_text(*m));
        },
    }
}

/// The frame text of a batch of client messages.
pub fn encode_client_batch(ms: &Vec<APClientMessage>) -> (r: String)
    ensures
        r@ == client_batch_text(ms@),
{
    let mut out = String::new();
    out.append("[");
    let mut i: usize = 0;
    while i < ms.len()
        invariant
            i <= ms@.len(),
            out@ == "["@ + message_list(ms@.take(i as int)),
        decreases ms.len() - i,
    {
        if i > 0 {
            out.append(",");
        }
        write_message(&mut out, &ms[i]);
        proof {
            let prefix = ms@.take(i as int + 1);
            assert(prefix.drop_last() =~= ms@.take(i as int));
            if i == 0 {
                assert(ms@.take(0) =~= Seq::<APClientMessage>::empty());
            }
            assert(out@ =~= "["@ + message_list(prefix));
        }
        i += 1;
    }
    out.append("]");
    assert(ms@.take(ms@.len() as int) =~= ms@);
    out
}

} // verus!
