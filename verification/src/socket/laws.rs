//! What holds of the protocol's two directions taken together: what one side
//! writes, the other reads back, whatever the text.

use crate::socket::{
    escape_char, escaped, failure_detail, failure_envelope, field, interpretation,
    path_field, request_envelope, response_envelope, says_success, string_from, success_envelope,
    text_of_field, value_at, value_start, ResponseView, ValueView,
};
use crate::text::{is_space, matches_at, space_run};
use vstd::prelude::*;

verus! {

/// Whether `key` holds neither a double quote nor a backslash.
pub open spec fn plain(key: Seq<char>) -> bool {
    forall|k: int| 0 <= k < key.len() ==> #[trigger] key[k] != '"' && key[k] != '\\'
}

/// A text is written as its first character is, followed by the rest.
proof fn lemma_escaped_front(s: Seq<char>)
    requires
        s.len() > 0,
    ensures
        escaped(s) == escape_char(s[0]) + escaped(s.drop_first()),
    decreases s.len(),
{
    if s.len() == 1 {
        assert(s.drop_last() =~= Seq::<char>::empty());
        assert(s.drop_first() =~= Seq::<char>::empty());
        assert(escaped(s) =~= escape_char(s[0]) + escaped(s.drop_first()));
    } else {
        let front = s.drop_last();
        lemma_escaped_front(front);
        assert(front.drop_first() =~= s.drop_first().drop_last());
        assert(s.drop_first().last() == s.last());
        assert(front[0] == s[0]);
        assert(escaped(s) =~= escape_char(s[0]) + escaped(s.drop_first()));
    }
}

/// What was written for a text is read back as that text, up to the double
/// quote behind it.
#[verifier::rlimit(40)]
proof fn lemma_read_escaped(e: Seq<char>, i: int, acc: Seq<char>, t: Seq<char>)
    requires
        0 <= i,
        i + escaped(t).len() < e.len(),
        e.subrange(i, i + escaped(t).len()) == escaped(t),
        e[i + escaped(t).len()] == '"',
    ensures
        string_from(e, i, acc) == Some((acc + t, i + escaped(t).len())),
    decreases t.len(),
{
    if t.len() == 0 {
        assert(acc + t =~= acc);
    } else {
        lemma_escaped_front(t);
        let c = t[0];
        let rest = t.drop_first();
        let ec = escape_char(c);
        let n = escaped(t).len() as int;
        let step = ec.len() as int;
        assert(escaped(t) == ec + escaped(rest));
        assert(e.subrange(i, i + n)[0] == e[i]);
        assert(escaped(t)[0] == ec[0]);
        if step == 2 {
            assert(e.subrange(i, i + n)[1] == e[i + 1]);
            assert(escaped(t)[1] == ec[1]);
        }
        assert(e.subrange(i + step, i + step + escaped(rest).len()) =~= escaped(rest)) by {
            assert forall|k: int| 0 <= k < escaped(rest).len() implies e[i + step + k] == escaped(
                rest,
            )[k] by {
                assert(e.subrange(i, i + n)[step + k] == e[i + step + k]);
                assert(escaped(t)[step + k] == escaped(rest)[k]);
            }
        }
        lemma_read_escaped(e, i + step, acc.push(c), rest);
        assert(acc.push(c) + rest =~= acc + t);
    }
}

/// A text without double quotes and backslashes is read as it stands.
proof fn lemma_read_plain(e: Seq<char>, i: int, close: int, acc: Seq<char>)
    requires
        0 <= i <= close < e.len(),
        forall|k: int| i <= k < close ==> #[trigger] e[k] != '"' && e[k] != '\\',
        e[close] == '"',
    ensures
        string_from(e, i, acc) == Some((acc + e.subrange(i, close), close)),
    decreases close - i,
{
    if i == close {
        assert(acc + e.subrange(i, close) =~= acc);
    } else {
        assert(e[i] != '"' && e[i] != '\\');
        lemma_read_plain(e, i + 1, close, acc.push(e[i]));
        assert(acc.push(e[i]) + e.subrange(i + 1, close) =~= acc + e.subrange(i, close));
    }
}

/// The search for a field passes over what holds no double quote.
proof fn lemma_skip(e: Seq<char>, name: Seq<char>, i: int, j: int)
    requires
        0 <= i <= j <= e.len(),
        forall|k: int| i <= k < j ==> #[trigger] e[k] != '"',
    ensures
        value_start(e, name, i) == value_start(e, name, j),
    decreases j - i,
{
    if i < j {
        assert(e[i] != '"');
        lemma_skip(e, name, i + 1, j);
    }
}

/// A key that stands at `at`, with a colon right behind it: the search ends
/// there if the key is the name looked for, and goes on behind the key if not.
#[verifier::rlimit(40)]
proof fn lemma_key(e: Seq<char>, name: Seq<char>, key: Seq<char>, at: int)
    requires
        0 <= at,
        at + key.len() + 2 < e.len(),
        e[at] == '"',
        plain(key),
        e.subrange(at + 1, at + 1 + key.len()) == key,
        e[at + 1 + key.len()] == '"',
        e[at + 2 + key.len()] == ':',
    ensures
        key == name ==> value_start(e, name, at) == Some(space_run(e, at + key.len() + 3)),
        key != name ==> value_start(e, name, at) == value_start(e, name, at + key.len() + 2),
{
    let close = at + 1 + key.len();
    assert forall|k: int| at + 1 <= k < close implies #[trigger] e[k] != '"' && e[k] != '\\' by {
        assert(e.subrange(at + 1, close)[k - at - 1] == e[k]);
        assert(key[k - at - 1] != '"');
    }
    lemma_read_plain(e, at + 1, close, Seq::empty());
    assert(Seq::<char>::empty() + e.subrange(at + 1, close) =~= key);
    assert(!is_space(e[close + 1]));
    assert(space_run(e, close + 1) == close + 1);
}

/// The text of a field is read back where the field stands written in full:
/// its name between double quotes at `at`, a colon, a space, and the text as
/// it is written between double quotes, with no double quote between `from`
/// and `at`.
#[verifier::rlimit(40)]
proof fn lemma_text_field(e: Seq<char>, name: Seq<char>, from: int, at: int, text: Seq<char>)
    requires
        0 <= from <= at,
        value_start(e, name, 0) == value_start(e, name, from),
        forall|k: int| from <= k < at ==> #[trigger] e[k] != '"',
        plain(name),
        at + name.len() + 5 + escaped(text).len() < e.len(),
        e[at] == '"',
        e.subrange(at + 1, at + 1 + name.len()) == name,
        e[at + 1 + name.len()] == '"',
        e[at + 2 + name.len()] == ':',
        e[at + 3 + name.len()] == ' ',
        e[at + 4 + name.len()] == '"',
        e.subrange(at + 5 + name.len(), at + 5 + name.len() + escaped(text).len()) == escaped(
            text,
        ),
        e[at + 5 + name.len() + escaped(text).len()] == '"',
    ensures
        text_of_field(e, name) == Some(text),
{
    let open = at + 4 + name.len();
    lemma_skip(e, name, from, at);
    lemma_key(e, name, name, at);
    assert(is_space(e[open - 1]));
    assert(!is_space(e[open]));
    assert(space_run(e, open) == open);
    assert(space_run(e, open - 1) == open);
    lemma_read_escaped(e, open + 1, Seq::empty(), text);
    assert(Seq::<char>::empty() + text =~= text);
}

/// The flag of a response is read where the response begins with the flag's
/// name and a value that is no text, and the search for any other field goes
/// on behind the name.
#[verifier::rlimit(40)]
proof fn lemma_flag(e: Seq<char>)
    requires
        e.len() > 13,
        e.subrange(0, 12) == "{\"success\": "@,
        e[12] != '"',
        !is_space(e[12]),
    ensures
        field(e, "success"@) == Some(value_at(e, 12)),
        forall|name: Seq<char>|
            name != "success"@ ==> #[trigger] value_start(e, name, 0) == value_start(e, name, 10),
{
    reveal_strlit("{\"success\": ");
    reveal_strlit("success");
    let lead = "{\"success\": "@;
    let flag = "success"@;
    assert forall|k: int| 0 <= k < 12 implies e[k] == lead[k] by {
        assert(e.subrange(0, 12)[k] == e[k]);
    }
    assert(e.subrange(2, 9) =~= flag);
    lemma_skip(e, flag, 0, 1);
    lemma_key(e, flag, flag, 1);
    assert(space_run(e, 12) == 12);
    assert(space_run(e, 11) == 12);
    assert forall|name: Seq<char>| name != "success"@ implies #[trigger] value_start(e, name, 0)
        == value_start(e, name, 10) by {
        lemma_skip(e, name, 0, 1);
        lemma_key(e, name, flag, 1);
    }
}

/// How a request stands written.
#[verifier::rlimit(40)]
proof fn lemma_request_shape(path: Seq<char>)
    ensures
        ({
            let e = request_envelope(path);
            let x = escaped(path);
            &&& e.len() == 18 + x.len()
            &&& e[0] != '"'
            &&& e[1] == '"'
            &&& e.subrange(2, 12) == "audio_path"@
            &&& "audio_path"@.len() == 10
            &&& plain("audio_path"@)
            &&& e[12] == '"'
            &&& e[13] == ':'
            &&& e[14] == ' '
            &&& e[15] == '"'
            &&& e.subrange(16, 16 + x.len() as int) == x
            &&& e[16 + x.len() as int] == '"'
        }),
{
    reveal_strlit("{\"audio_path\": \"");
    reveal_strlit("audio_path");
    reveal_strlit("\"}");
    let head = "{\"audio_path\": \""@;
    let x = escaped(path);
    let e = request_envelope(path);
    assert forall|k: int| 0 <= k < 16 implies e[k] == head[k] by {}
    assert(e.subrange(2, 12) =~= "audio_path"@);
    assert(e.subrange(16, 16 + x.len() as int) =~= x);
}

/// A request is read back as the path that it was written for, whatever the
/// path holds.
pub proof fn law_request_round_trip(path: Seq<char>)
    ensures
        path_field(request_envelope(path)) == Some(path),
{
    lemma_request_shape(path);
    let e = request_envelope(path);
    lemma_skip(e, "audio_path"@, 0, 1);
    lemma_text_field(e, "audio_path"@, 1, 1, path);
}

/// How a response that carries a text stands written.
#[verifier::rlimit(40)]
proof fn lemma_success_shape(text: Seq<char>)
    ensures
        ({
            let e = success_envelope(text);
            let x = escaped(text);
            &&& e.len() == 29 + x.len()
            &&& e.subrange(0, 12) == "{\"success\": "@
            &&& matches_at(e, "true"@, 12)
            &&& e[12] != '"'
            &&& !is_space(e[12])
            &&& forall|k: int| 10 <= k < 18 ==> #[trigger] e[k] != '"'
            &&& e[18] == '"'
            &&& e.subrange(19, 23) == "text"@
            &&& "text"@.len() == 4
            &&& "text"@ != "success"@
            &&& plain("text"@)
            &&& e[23] == '"'
            &&& e[24] == ':'
            &&& e[25] == ' '
            &&& e[26] == '"'
            &&& e.subrange(27, 27 + x.len() as int) == x
            &&& e[27 + x.len() as int] == '"'
        }),
{
    reveal_strlit("{\"success\": true, \"text\": \"");
    reveal_strlit("{\"success\": ");
    reveal_strlit("success");
    reveal_strlit("text");
    reveal_strlit("true");
    reveal_strlit("\"}");
    let head = "{\"success\": true, \"text\": \""@;
    let x = escaped(text);
    let e = success_envelope(text);
    assert forall|k: int| 0 <= k < 27 implies e[k] == head[k] by {}
    assert(e.subrange(0, 12) =~= "{\"success\": "@);
    assert(e.subrange(12, 16) =~= "true"@);
    assert(e.subrange(19, 23) =~= "text"@);
    assert("text"@.len() != "success"@.len());
    assert(e.subrange(27, 27 + x.len() as int) =~= x);
}

/// A response that carries a text is read back as a success with that text,
/// whatever the text holds. The text may be empty.
pub proof fn law_success_round_trip(text: Seq<char>)
    ensures
        interpretation(success_envelope(text)) == ResponseView::Transcribed(text),
        interpretation(response_envelope(Ok(text))) == ResponseView::Transcribed(text),
{
    lemma_success_shape(text);
    let e = success_envelope(text);
    lemma_flag(e);
    assert(value_at(e, 12) == ValueView::True);
    assert(says_success(e));
    assert(value_start(e, "text"@, 0) == value_start(e, "text"@, 10));
    lemma_text_field(e, "text"@, 10, 18, text);
}

/// How a response that carries an error detail stands written.
#[verifier::rlimit(40)]
proof fn lemma_failure_shape(value: Seq<char>)
    ensures
        ({
            let e = failure_envelope(value);
            let x = escaped(value);
            &&& e.len() == 31 + x.len()
            &&& e.subrange(0, 12) == "{\"success\": "@
            &&& !matches_at(e, "true"@, 12)
            &&& matches_at(e, "false"@, 12)
            &&& e[12] != '"'
            &&& !is_space(e[12])
            &&& forall|k: int| 10 <= k < 19 ==> #[trigger] e[k] != '"'
            &&& e[19] == '"'
            &&& e.subrange(20, 25) == "error"@
            &&& "error"@.len() == 5
            &&& "error"@ != "success"@
            &&& plain("error"@)
            &&& e[25] == '"'
            &&& e[26] == ':'
            &&& e[27] == ' '
            &&& e[28] == '"'
            &&& e.subrange(29, 29 + x.len() as int) == x
            &&& e[29 + x.len() as int] == '"'
        }),
{
    reveal_strlit("{\"success\": false, \"error\": \"");
    reveal_strlit("{\"success\": ");
    reveal_strlit("success");
    reveal_strlit("error");
    reveal_strlit("true");
    reveal_strlit("false");
    reveal_strlit("\"}");
    let head = "{\"success\": false, \"error\": \""@;
    let x = escaped(value);
    let e = failure_envelope(value);
    assert forall|k: int| 0 <= k < 29 implies e[k] == head[k] by {}
    assert(e.subrange(0, 12) =~= "{\"success\": "@);
    assert(!matches_at(e, "true"@, 12)) by {
        if matches_at(e, "true"@, 12) {
            assert(e.subrange(12, 16)[0] == e[12]);
        }
    }
    assert(e.subrange(12, 17) =~= "false"@);
    assert(e.subrange(20, 25) =~= "error"@);
    assert("error"@.len() != "success"@.len());
    assert(e.subrange(29, 29 + x.len() as int) =~= x);
}

/// A response that carries an error detail is read back as a failure with
/// that detail, whatever the detail holds. The detail that is written for a
/// failure is never empty.
pub proof fn law_failure_round_trip(detail: Seq<char>)
    ensures
        failure_detail(detail).len() > 0,
        interpretation(response_envelope(Err(detail))) == ResponseView::Failed(
            Some(failure_detail(detail)),
        ),
{
    assert(failure_detail(detail).len() > 0) by {
        reveal_strlit("transcription failed");
    }
    let value = failure_detail(detail);
    lemma_failure_shape(value);
    let e = failure_envelope(value);
    lemma_flag(e);
    assert(value_at(e, 12) == ValueView::False);
    assert(!says_success(e));
    assert(value_start(e, "error"@, 0) == value_start(e, "error"@, 10));
    lemma_text_field(e, "error"@, 10, 19, value);
}

} // verus!
