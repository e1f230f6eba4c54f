use vstd::prelude::*;

verus! {

/// The characters with the Unicode `White_Space` property, which is what
/// `char::is_whitespace` tests.
pub open spec fn is_white_space(c: char) -> bool {
    ||| '\t' <= c <= '\r'
    ||| c == ' '
    ||| c == '\u{85}'
    ||| c == '\u{A0}'
    ||| c == '\u{1680}'
    ||| '\u{2000}' <= c <= '\u{200A}'
    ||| c == '\u{2028}'
    ||| c == '\u{2029}'
    ||| c == '\u{202F}'
    ||| c == '\u{205F}'
    ||| c == '\u{3000}'
}

/// `s` with trailing white space removed.
pub open spec fn trim_end_spec(s: Seq<char>) -> Seq<char>
    decreases s.len(),
{
    if s.len() > 0 && is_white_space(s.last()) {
        trim_end_spec(s.drop_last())
    } else {
        s
    }
}

/// A message as the input pump writes it: the text and one newline.
pub open spec fn framed(m: Seq<char>) -> Seq<char> {
    m.push('\n')
}

/// Relies on `str::trim_end`: trailing white space removed, where white
/// space is the Unicode `White_Space` property.
#[verifier::external_body]
fn trim_line(line: &str) -> (r: String)
    ensures
        r@ == trim_end_spec(line@),
{
    line.trim_end().to_string()
}

/// Whether a pump should end after a read of `n` bytes: at end of stream, or
/// once shutdown has been requested.
pub fn should_stop(n: usize, shutdown: bool) -> (r: bool)
    ensures
        r == (n == 0 || shutdown),
{
    n == 0 || shutdown
}

/// Whether a loop goes on after the item it handed on.
#[derive(Clone, Copy, Debug, PartialEq, Eq, Structural)]
pub enum Flow {
    Continue,
    Stop,
}

/// What a pump or relay loop does after handing one item on (a write and
/// flush to the backend, a send into a channel or to the client): it goes on
/// only if that succeeded and shutdown was not requested meanwhile.
pub fn after_delivery(shutdown: bool, delivered: bool) -> (r: Flow)
    ensures
        r == (if delivered && !shutdown {
            Flow::Continue
        } else {
            Flow::Stop
        }),
{
    if delivered && !shutdown {
        Flow::Continue
    } else {
        Flow::Stop
    }
}

/// `msg` followed by a single newline.
pub fn frame_line(msg: String) -> (r: String)
    ensures
        r@ == framed(msg@),
{
    proof {
        reveal_strlit("\n");
    }
    let r = msg.concat("\n");
    assert(r@ =~= framed(msg@));
    r
}

/// What the input pump does next.
#[derive(Debug, PartialEq, Eq)]
pub enum StdinAction {
    /// Write these characters to the backend's input and flush.
    Write(String),
    /// End the pump.
    Stop,
}

/// What a pump that reads the backend's output or error stream does next.
#[derive(Debug, PartialEq, Eq)]
pub enum LineAction {
    /// Pass on this line (to the client for the output stream, to the log
    /// for the error stream).
    Emit(String),
    /// End the pump.
    Stop,
}

/// One step of the input pump, given the next message taken from the inbound
/// channel (`None` once it is closed and drained).
pub fn stdin_step(shutdown: bool, next: Option<String>) -> (r: StdinAction)
    ensures
        match next {
            Some(m) if !shutdown => r matches StdinAction::Write(w) && w@ == framed(m@),
            _ => r is Stop,
        },
{
    match next {
        Some(m) => {
            if shutdown {
                StdinAction::Stop
            } else {
                StdinAction::Write(frame_line(m))
            }
        },
        None => StdinAction::Stop,
    }
}

/// One step of the output or error pump, given the outcome of one line read:
/// `Some(n)` when `n` bytes were read into `line`, `None` on a read error.
pub fn read_step(shutdown: bool, read: Option<usize>, line: &str) -> (r: LineAction)
    ensures
        match read {
            Some(n) if n != 0 && !shutdown => r matches LineAction::Emit(l) && l@ == trim_end_spec(
                line@,
            ),
            _ => r is Stop,
        },
{
    match read {
        Some(n) => {
            if should_stop(n, shutdown) {
                LineAction::Stop
            } else {
                LineAction::Emit(trim_line(line))
            }
        },
        None => LineAction::Stop,
    }
}

/// How a line reader splits a stream: each line with its newline, then the
/// rest if the stream does not end in one. `cur` holds what was read of the
/// current line so far.
pub open spec fn lines_from(s: Seq<char>, cur: Seq<char>) -> Seq<Seq<char>>
    decreases s.len(),
{
    if s.len() == 0 {
        if cur.len() == 0 {
            seq![]
        } else {
            seq![cur]
        }
    } else if s[0] == '\n' {
        seq![cur.push('\n')] + lines_from(s.drop_first(), seq![])
    } else {
        lines_from(s.drop_first(), cur.push(s[0]))
    }
}

/// What the input pump writes for a sequence of messages, in order.
pub open spec fn stream_of(msgs: Seq<Seq<char>>) -> Seq<char>
    decreases msgs.len(),
{
    if msgs.len() == 0 {
        seq![]
    } else {
        framed(msgs[0]) + stream_of(msgs.drop_first())
    }
}

/// What the output pump passes on when the backend echoes its input: the
/// lines of the written stream, each with its trailing white space removed.
pub open spec fn echo_replies(msgs: Seq<Seq<char>>) -> Seq<Seq<char>> {
    lines_from(stream_of(msgs), seq![]).map_values(|l: Seq<char>| trim_end_spec(l))
}

/// A message that survives framing and trimming: no newline inside, and no
/// white space at its end.
pub open spec fn is_plain_line(m: Seq<char>) -> bool {
    &&& !m.contains('\n')
    &&& m.len() > 0 ==> !is_white_space(m.last())
}

proof fn lemma_lines_of_framed(m: Seq<char>, rest: Seq<char>, cur: Seq<char>)
    requires
        !m.contains('\n'),
    ensures
        lines_from(framed(m) + rest, cur) == seq![cur + framed(m)] + lines_from(rest, seq![]),
    decreases m.len(),
{
    let s = framed(m) + rest;
    if m.len() == 0 {
        assert(s[0] == '\n');
        assert(s.drop_first() =~= rest);
        assert(cur + framed(m) =~= cur.push('\n'));
    } else {
        let t = m.drop_first();
        assert(s[0] == m[0]);
        assert(s.drop_first() =~= framed(t) + rest);
        assert forall|i: int| 0 <= i < t.len() implies t[i] != '\n' by {
            assert(t[i] == m[i + 1]);
        }
        lemma_lines_of_framed(t, rest, cur.push(m[0]));
        assert(cur.push(m[0]) + framed(t) =~= cur + framed(m));
    }
}

proof fn lemma_lines_of_stream(msgs: Seq<Seq<char>>)
    requires
        forall|i: int| 0 <= i < msgs.len() ==> !(#[trigger] msgs[i]).contains('\n'),
    ensures
        lines_from(stream_of(msgs), seq![]) == msgs.map_values(|m: Seq<char>| framed(m)),
    decreases msgs.len(),
{
    if msgs.len() == 0 {
        assert(msgs.map_values(|m: Seq<char>| framed(m)) =~= seq![]);
    } else {
        let rest = msgs.drop_first();
        assert forall|i: int| 0 <= i < rest.len() implies !(#[trigger] rest[i]).contains('\n') by {
            assert(rest[i] == msgs[i + 1]);
        }
        lemma_lines_of_stream(rest);
        lemma_lines_of_framed(msgs[0], stream_of(rest), seq![]);
        assert(seq![] + framed(msgs[0]) =~= framed(msgs[0]));
        assert(msgs.map_values(|m: Seq<char>| framed(m)) =~= seq![framed(msgs[0])]
            + rest.map_values(|m: Seq<char>| framed(m)));
    }
}

proof fn lemma_trim_framed(m: Seq<char>)
    requires
        is_plain_line(m),
    ensures
        trim_end_spec(framed(m)) == m,
{
    let f = framed(m);
    assert(f.drop_last() =~= m);
    assert(is_white_space(f.last()));
    assert(trim_end_spec(f) == trim_end_spec(m));
}

/// Under a backend that echoes each input line, the client gets back exactly
/// the messages it sent, one for one and in order, provided that each has no
/// newline inside and no white space at its end.
pub proof fn lemma_echo_round_trip(msgs: Seq<Seq<char>>)
    requires
        forall|i: int| 0 <= i < msgs.len() ==> is_plain_line(#[trigger] msgs[i]),
    ensures
        echo_replies(msgs) == msgs,
{
    assert forall|i: int| 0 <= i < msgs.len() implies !(#[trigger] msgs[i]).contains('\n') by {
        assert(is_plain_line(msgs[i]));
    }
    lemma_lines_of_stream(msgs);
    assert forall|i: int| 0 <= i < msgs.len() implies #[trigger] echo_replies(msgs)[i] == msgs[i] by {
        lemma_trim_framed(msgs[i]);
    }
    assert(echo_replies(msgs) =~= msgs);
}

} // verus!
