//! What crosses the boundary to the application: arguments in, JSON envelopes out.

use vstd::prelude::*;
use vstd::string::*;
use crate::agent_warp::state::{self, WarpError};
use crate::json::{self, quote};
use crate::numbers::{self, decimal};
use crate::text::{self, chars_of, joined, split, trim};

verus! {

pub const INTERIOR_NUL: &'static str = "{\"ok\":false,\"err\":\"interior NUL\"}";

pub const BAD_YEAR: &'static str = "year filter is not valid UTF-8";

pub const BAD_CLIENTS: &'static str = "client filter is not valid UTF-8";

/// The envelope of a payload, which is JSON text, or of an error.
pub open spec fn envelope_text(outcome: Result<Seq<char>, Seq<char>>) -> Seq<char> {
    match outcome {
        Ok(data) => "{\"ok\":true,\"data\":"@ + data + "}"@,
        Err(message) => "{\"ok\":false,\"err\":"@ + json::quoted_text(message) + "}"@,
    }
}

/// A text without NUL characters is handed over as it is, any other as an error.
pub open spec fn handed_over(written: Seq<char>) -> Seq<char> {
    if written.contains('\0') {
        INTERIOR_NUL@
    } else {
        written
    }
}

/// The text or the message that a result holds.
pub open spec fn outcome_text(outcome: Result<String, String>) -> Result<Seq<char>, Seq<char>> {
    match outcome {
        Ok(content) => Ok(content@),
        Err(message) => Err(message@),
    }
}

/// The text that is handed over for an outcome. The text of an error never holds a NUL character,
/// so that it is handed over as it is.
pub open spec fn enveloped(outcome: Result<Seq<char>, Seq<char>>) -> Seq<char> {
    match outcome {
        Ok(_) => handed_over(envelope_text(outcome)),
        Err(_) => envelope_text(outcome),
    }
}

/// The text to hand over for a JSON text.
pub fn into_raw_json(written: String) -> (r: String)
    ensures
        r@ == handed_over(written@),
{
    let chars = chars_of(&written);
    let mut i: usize = 0;
    while i < chars.len()
        invariant
            i <= chars@.len(),
            chars@ == written@,
            forall|j: int| 0 <= j < i ==> chars@[j] != '\0',
        decreases chars@.len() - i,
    {
        if chars[i] == '\0' {
            assert(written@.contains(chars@[i as int]));
            return INTERIOR_NUL.to_owned();
        }
        i += 1;
    }
    assert(!written@.contains('\0'));
    written
}

/// The envelope of an outcome.
pub fn envelope(outcome: Result<String, String>) -> (r: String)
    ensures
        r@ == enveloped(outcome_text(outcome)),
{
    match outcome {
        Ok(data) => into_raw_json(joined(&joined("{\"ok\":true,\"data\":", &data), "}")),
        Err(message) => {
            let quoted = quote(&message);
            let written = joined(&joined("{\"ok\":false,\"err\":", &quoted), "}");
            proof {
                reveal_strlit("{\"ok\":false,\"err\":");
                reveal_strlit("}");
                lemma_framed_without_nul("{\"ok\":false,\"err\":"@, quoted@, "}"@);
            }
            into_raw_json(written)
        },
    }
}

/// A text in a frame holds no NUL character where none of its three parts does.
proof fn lemma_framed_without_nul(front: Seq<char>, content: Seq<char>, back: Seq<char>)
    requires
        !content.contains('\0'),
        forall|i: int| 0 <= i < front.len() ==> #[trigger] front[i] != '\0',
        forall|i: int| 0 <= i < back.len() ==> #[trigger] back[i] != '\0',
    ensures
        !(front + content + back).contains('\0'),
{
    let whole = front + content + back;
    assert forall|i: int| 0 <= i < whole.len() implies #[trigger] whole[i] != '\0' by {
        if front.len() <= i < front.len() + content.len() {
            assert(whole[i] == content[i - front.len()]);
        }
    }
}

/// The answer of a probe, which has no envelope around its count.
pub open spec fn probe_text(outcome: Result<u64, Seq<char>>) -> Seq<char> {
    match outcome {
        Ok(messages) => "{\"ok\":true,\"messages\":"@ + numbers::decimal_text(messages as nat)
            + "}"@,
        Err(message) => envelope_text(Err(message)),
    }
}

/// The answer of a probe that counted messages, or failed.
pub fn probe_answer(outcome: Result<u64, String>) -> (r: String)
    ensures
        r@ == probe_text(
            match outcome {
                Ok(messages) => Ok(messages),
                Err(message) => Err(message@),
            },
        ),
{
    match outcome {
        Ok(messages) => {
            let count = decimal(messages);
            let written = joined(&joined("{\"ok\":true,\"messages\":", &count), "}");
            proof {
                reveal_strlit("{\"ok\":true,\"messages\":");
                reveal_strlit("}");
                numbers::decimal_reads_back(messages as nat);
                lemma_framed_without_nul("{\"ok\":true,\"messages\":"@, count@, "}"@);
            }
            into_raw_json(written)
        },
        Err(message) => envelope(Err(message)),
    }
}

/// What a Warp request answers: a payload, or the fixed code of an error. `None` stands for a
/// payload that could not be written.
pub open spec fn warp_outcome(outcome: Result<Option<Seq<char>>, WarpError>) -> Result<
    Seq<char>,
    Seq<char>,
> {
    match outcome {
        Ok(Some(data)) => Ok(data),
        Ok(None) => Err(state::code_of(WarpError::Internal)),
        Err(error) => Err(state::code_of(error)),
    }
}

pub fn warp_envelope(outcome: Result<Option<String>, WarpError>) -> (r: String)
    ensures
        r@ == enveloped(
            warp_outcome(
                match outcome {
                    Ok(data) => Ok(text::opt_text(data)),
                    Err(error) => Err(error),
                },
            ),
        ),
{
    match outcome {
        Ok(Some(data)) => envelope(Ok(data)),
        Ok(None) => envelope(Err(WarpError::Internal.code().to_owned())),
        Err(error) => envelope(Err(error.code().to_owned())),
    }
}

/// The envelope of a call that panicked with a text, if it did with one.
pub fn panic_envelope(name: &str, detail: Option<&str>) -> (r: String)
    ensures
        r@ == envelope_text(
            Err(
                name@ + " panicked: "@ + (match detail {
                    Some(said) => said@,
                    None => "panic"@,
                }),
            ),
        ),
{
    let prefix = joined(name, " panicked: ");
    let message = match detail {
        Some(said) => joined(&prefix, said),
        None => joined(&prefix, "panic"),
    };
    envelope(Err(message))
}

/// The envelope of a Warp call that panicked: nothing of the panic is told.
pub fn warp_panic_envelope() -> (r: String)
    ensures
        r@ == envelope_text(Err(state::code_of(WarpError::Internal))),
{
    warp_envelope(Err(WarpError::Internal))
}

/// An argument: `None` where there is none, else its text, or an error where it is not UTF-8.
pub type Argument<'a> = Option<Result<&'a str, ()>>;

/// The year that a filter names, empty for all time.
pub open spec fn filtered_year(year: Option<Result<Seq<char>, ()>>) -> Result<Seq<char>, Seq<char>> {
    match year {
        None => Ok(Seq::empty()),
        Some(Ok(content)) => Ok(
            if text::trimmed(content).len() == 0 {
                Seq::empty()
            } else {
                content
            },
        ),
        Some(Err(_)) => Err(BAD_YEAR@),
    }
}

/// The text of an argument.
pub open spec fn argument_text(argument: Argument<'_>) -> Option<Result<Seq<char>, ()>> {
    match argument {
        None => None,
        Some(Ok(content)) => Some(Ok(content@)),
        Some(Err(_)) => Some(Err(())),
    }
}

/// The year filter, empty for all time. A blank one is for all time too.
pub fn year_from(year: Argument<'_>) -> (r: Result<String, String>)
    ensures
        outcome_text(r) == filtered_year(argument_text(year)),
{
    let all = String::new();
    assert(all@ =~= Seq::<char>::empty());
    match year {
        None => Ok(all),
        Some(Ok(content)) => if chars_of(&trim(content)).len() == 0 {
            Ok(all)
        } else {
            Ok(content.to_owned())
        },
        Some(Err(_)) => Err(BAD_YEAR.to_owned()),
    }
}

/// The pieces of a list that are not blank, without white space around them.
pub open spec fn filled_pieces(pieces: Seq<Seq<char>>) -> Seq<Seq<char>>
    decreases pieces.len(),
{
    if pieces.len() == 0 {
        Seq::empty()
    } else if text::trimmed(pieces.last()).len() == 0 {
        filled_pieces(pieces.drop_last())
    } else {
        filled_pieces(pieces.drop_last()).push(text::trimmed(pieces.last()))
    }
}

/// The clients that a comma-separated filter names.
pub open spec fn named_clients(raw: Seq<char>) -> Seq<Seq<char>> {
    filled_pieces(text::split_on(raw, ','))
}

fn clients_in(raw: &str) -> (r: Vec<String>)
    ensures
        text::texts(r@) == named_clients(raw@),
{
    let pieces = split(raw, ',');
    let ghost all = text::texts(pieces@);
    let mut out: Vec<String> = Vec::new();
    let mut i: usize = 0;
    assert(all.take(0) =~= Seq::empty());
    assert(text::texts(out@) =~= filled_pieces(all.take(0)));
    while i < pieces.len()
        invariant
            i <= pieces@.len(),
            all == text::texts(pieces@),
            text::texts(out@) == filled_pieces(all.take(i as int)),
        decreases pieces@.len() - i,
    {
        let ghost before = out@;
        proof {
            assert(all.take(i + 1).drop_last() =~= all.take(i as int));
            assert(all.take(i + 1).last() == pieces@[i as int]@);
        }
        let piece = trim(&pieces[i]);
        if chars_of(&piece).len() > 0 {
            out.push(piece);
            assert(text::texts(out@) =~= text::texts(before).push(piece@));
        }
        i += 1;
    }
    assert(all.take(i as int) =~= all);
    out
}

/// The clients that a filter lets through, `None` for all.
pub open spec fn filtered_clients(clients: Option<Result<Seq<char>, ()>>) -> Result<
    Option<Seq<Seq<char>>>,
    Seq<char>,
> {
    match clients {
        None => Ok(None),
        Some(Err(_)) => Err(BAD_CLIENTS@),
        Some(Ok(raw)) => if named_clients(raw).len() == 0 {
            Ok(None)
        } else {
            Ok(Some(named_clients(raw)))
        },
    }
}

/// The client filter, `None` for all clients. Blank entries do not count.
pub fn clients_from(clients: Argument<'_>) -> (r: Result<Option<Vec<String>>, String>)
    ensures
        (match r {
            Ok(Some(list)) => Ok(Some(text::texts(list@))),
            Ok(None) => Ok(None),
            Err(message) => Err(message@),
        }) == filtered_clients(argument_text(clients)),
{
    match clients {
        None => Ok(None),
        Some(Err(_)) => Err(BAD_CLIENTS.to_owned()),
        Some(Ok(raw)) => {
            let list = clients_in(raw);
            assert(text::texts(list@).len() == list@.len());
            if list.len() == 0 {
                Ok(None)
            } else {
                Ok(Some(list))
            }
        },
    }
}

/// The text argument of a Warp request, where there is one that is UTF-8.
pub fn warp_utf8<'a>(value: Argument<'a>) -> (r: Result<&'a str, WarpError>)
    ensures
        match value {
            Some(Ok(content)) => r == Ok::<&'a str, WarpError>(content),
            _ => r == Err::<&'a str, WarpError>(WarpError::InvalidUsage),
        },
{
    match value {
        Some(Ok(content)) => Ok(content),
        _ => Err(WarpError::InvalidUsage),
    }
}

/// The bearer argument of a Warp request.
pub fn bearer_argument<'a>(value: Argument<'a>) -> (r: Result<&'a str, WarpError>)
    ensures
        match value {
            Some(Ok(content)) => r == Ok::<&'a str, WarpError>(content),
            _ => r == Err::<&'a str, WarpError>(WarpError::InvalidBearer),
        },
{
    match warp_utf8(value) {
        Ok(content) => Ok(content),
        Err(_) => Err(WarpError::InvalidBearer),
    }
}

/// The path argument of a Warp request.
pub fn path_argument<'a>(value: Argument<'a>) -> (r: Result<&'a str, WarpError>)
    ensures
        match value {
            Some(Ok(content)) => r == Ok::<&'a str, WarpError>(content),
            _ => r == Err::<&'a str, WarpError>(WarpError::InvalidExternalPath),
        },
{
    match warp_utf8(value) {
        Ok(content) => Ok(content),
        Err(_) => Err(WarpError::InvalidExternalPath),
    }
}

/// The clients of a filter are its pieces between commas, each without the white space around it,
/// in order; blank pieces do not count.
pub proof fn filters_name_every_client(pieces: Seq<Seq<char>>, i: int)
    requires
        0 <= i < pieces.len(),
    ensures
        text::trimmed(pieces[i]).len() > 0 ==> filled_pieces(pieces).contains(
            text::trimmed(pieces[i]),
        ),
        filled_pieces(pieces).len() <= pieces.len(),
        (forall|j: int| 0 <= j < pieces.len() ==> text::trimmed(#[trigger] pieces[j]).len() > 0)
            ==> filled_pieces(pieces) == pieces.map_values(|piece: Seq<char>| text::trimmed(piece)),
        (forall|j: int| 0 <= j < pieces.len() ==> text::trimmed(#[trigger] pieces[j]).len() == 0)
            ==> filled_pieces(pieces).len() == 0,
    decreases pieces.len(),
{
    let rest = pieces.drop_last();
    let all = filled_pieces(pieces);
    let kept = filled_pieces(rest);
    assert forall|j: int| 0 <= j < rest.len() implies #[trigger] rest[j] == pieces[j] by {}
    if i < pieces.len() - 1 {
        filters_name_every_client(rest, i);
        assert(rest[i] == pieces[i]);
        if text::trimmed(pieces[i]).len() > 0 {
            let k = choose|k: int| 0 <= k < kept.len() && kept[k] == text::trimmed(pieces[i]);
            assert(all[k] == kept[k]);
        }
    } else {
        if rest.len() > 0 {
            filters_name_every_client(rest, 0);
        }
        if text::trimmed(pieces[i]).len() > 0 {
            assert(all[all.len() - 1] == text::trimmed(pieces[i]));
        }
    }
    if forall|j: int| 0 <= j < pieces.len() ==> text::trimmed(#[trigger] pieces[j]).len() > 0 {
        assert(text::trimmed(pieces[pieces.len() - 1]).len() > 0);
        assert(pieces.map_values(|piece: Seq<char>| text::trimmed(piece)) =~= rest.map_values(
            |piece: Seq<char>| text::trimmed(piece),
        ).push(text::trimmed(pieces.last())));
        assert(rest.len() == 0 ==> kept =~= rest.map_values(|piece: Seq<char>| text::trimmed(piece)));
    }
    if forall|j: int| 0 <= j < pieces.len() ==> text::trimmed(#[trigger] pieces[j]).len() == 0 {
        assert(text::trimmed(pieces[pieces.len() - 1]).len() == 0);
    }
}

/// No client of a filter is blank or holds a comma, and every one of them stands in the filter.
pub proof fn named_clients_stand_in_the_filter(raw: Seq<char>, i: int)
    requires
        0 <= i < named_clients(raw).len(),
    ensures
        named_clients(raw)[i].len() > 0,
        exists|j: int|
            0 <= j < text::split_on(raw, ',').len() && named_clients(raw)[i] == text::trimmed(
                #[trigger] text::split_on(raw, ',')[j],
            ),
        text::rejoined(text::split_on(raw, ','), ',') == raw,
{
    text::splitting_loses_nothing(raw, ',');
    lemma_filled_from(text::split_on(raw, ','), i);
}

proof fn lemma_filled_from(pieces: Seq<Seq<char>>, i: int)
    requires
        0 <= i < filled_pieces(pieces).len(),
    ensures
        filled_pieces(pieces)[i].len() > 0,
        exists|j: int|
            0 <= j < pieces.len() && filled_pieces(pieces)[i] == text::trimmed(#[trigger] pieces[j]),
    decreases pieces.len(),
{
    let rest = pieces.drop_last();
    let kept = filled_pieces(rest);
    if i < kept.len() {
        lemma_filled_from(rest, i);
        let j = choose|j: int| 0 <= j < rest.len() && kept[i] == text::trimmed(#[trigger] rest[j]);
        assert(pieces[j] == rest[j]);
    } else {
        assert(pieces[pieces.len() - 1] == pieces.last());
    }
}

/// An envelope says whether the call succeeded, and carries its payload as it is or its error as
/// quoted text. What would hold a NUL character is handed over as an error instead.
pub proof fn envelopes_carry_payload_or_error(data: Seq<char>, message: Seq<char>)
    ensures
        !("{\"ok\":true,\"data\":"@ + data + "}"@).contains('\0') ==> enveloped(Ok(data))
            == "{\"ok\":true,\"data\":"@ + data + "}"@,
        ("{\"ok\":true,\"data\":"@ + data + "}"@).contains('\0') ==> enveloped(Ok(data))
            == "{\"ok\":false,\"err\":\"interior NUL\"}"@,
        enveloped(Err(message)) == "{\"ok\":false,\"err\":"@ + json::quoted_text(message) + "}"@,
{
}

/// A Warp request answers with its payload, or with nothing but the code of its error.
pub proof fn warp_answers_hold_payload_or_code(data: Seq<char>, error: WarpError)
    ensures
        warp_outcome(Ok(Some(data))) == Ok::<Seq<char>, Seq<char>>(data),
        warp_outcome(Ok(None)) == Err::<Seq<char>, Seq<char>>("warp_internal"@),
        warp_outcome(Err(error)) == Err::<Seq<char>, Seq<char>>(state::code_of(error)),
{
}

/// A missing or blank year is for all time, any other is taken as it is, and one that is no text is
/// refused.
pub proof fn blank_years_are_for_all_time(content: Seq<char>)
    ensures
        filtered_year(None) == Ok::<Seq<char>, Seq<char>>(Seq::empty()),
        text::trimmed(content).len() == 0 ==> filtered_year(Some(Ok(content))) == Ok::<
            Seq<char>,
            Seq<char>,
        >(Seq::empty()),
        text::trimmed(content).len() > 0 ==> filtered_year(Some(Ok(content))) == Ok::<
            Seq<char>,
            Seq<char>,
        >(content),
        filtered_year(Some(Err(()))) == Err::<Seq<char>, Seq<char>>(
            "year filter is not valid UTF-8"@,
        ),
{
}

/// A filter without a client lets all through, and so does a missing one; any other lets through the
/// clients that it names.
pub proof fn filters_without_a_client_let_all_through(raw: Seq<char>)
    ensures
        filtered_clients(None) == Ok::<Option<Seq<Seq<char>>>, Seq<char>>(None),
        (forall|j: int|
            0 <= j < text::split_on(raw, ',').len() ==> text::trimmed(
                #[trigger] text::split_on(raw, ',')[j],
            ).len() == 0) ==> filtered_clients(Some(Ok(raw))) == Ok::<
            Option<Seq<Seq<char>>>,
            Seq<char>,
        >(None),
        (forall|j: int|
            0 <= j < text::split_on(raw, ',').len() ==> text::trimmed(
                #[trigger] text::split_on(raw, ',')[j],
            ).len() > 0) ==> filtered_clients(Some(Ok(raw))) == Ok::<
            Option<Seq<Seq<char>>>,
            Seq<char>,
        >(Some(text::split_on(raw, ',').map_values(|piece: Seq<char>| text::trimmed(piece)))),
        filtered_clients(Some(Err(()))) == Err::<Option<Seq<Seq<char>>>, Seq<char>>(
            "client filter is not valid UTF-8"@,
        ),
{
    text::splitting_loses_nothing(raw, ',');
    filters_name_every_client(text::split_on(raw, ','), 0);
}

/// How many pieces are not blank.
pub open spec fn filled_count(pieces: Seq<Seq<char>>) -> nat
    decreases pieces.len(),
{
    if pieces.len() == 0 {
        0
    } else {
        filled_count(pieces.drop_last()) + (if text::trimmed(pieces.last()).len() > 0 {
            1nat
        } else {
            0
        })
    }
}

/// Every piece that is not blank has its own place, behind those before it, and there is no other.
pub proof fn filters_keep_the_order(pieces: Seq<Seq<char>>, i: int)
    requires
        0 <= i < pieces.len(),
        text::trimmed(pieces[i]).len() > 0,
    ensures
        filled_pieces(pieces).len() == filled_count(pieces),
        filled_count(pieces.take(i)) < filled_pieces(pieces).len(),
        filled_pieces(pieces)[filled_count(pieces.take(i)) as int] == text::trimmed(pieces[i]),
    decreases pieces.len(),
{
    let rest = pieces.drop_last();
    lemma_filled_counted(rest);
    lemma_filled_counted(pieces);
    if i == pieces.len() - 1 {
        assert(pieces.take(i) =~= rest);
    } else {
        assert(pieces.take(i) =~= rest.take(i));
        assert(rest[i] == pieces[i]);
        filters_keep_the_order(rest, i);
    }
}

proof fn lemma_filled_counted(pieces: Seq<Seq<char>>)
    ensures
        filled_pieces(pieces).len() == filled_count(pieces),
    decreases pieces.len(),
{
    if pieces.len() > 0 {
        lemma_filled_counted(pieces.drop_last());
    }
}

} // verus!
