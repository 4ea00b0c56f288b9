//! The status log's vocabulary: one spec function per status line the
//! retriever can emit, a ghost model of the lines one request
//! produces for each possible outcome, and proofs that a batch reports
//! every request and reports an unsupported type exactly once.

use vstd::prelude::*;

verus! {

/// Line announcing that a request is about to be issued.
pub open spec fn running_line(url: Seq<char>) -> Seq<char> {
    "Running request for "@ + url
}

/// Line reporting that a batch was started with empty input.
pub open spec fn no_input_line() -> Seq<char> {
    "There was no input provided to fetch"@
}

/// Line reporting a successful transport-level response.
pub open spec fn response_ok_line() -> Seq<char> {
    "Response returned successfully!"@
}

/// Line announcing the content-type inspection.
pub open spec fn checking_line() -> Seq<char> {
    "Checking response content type..."@
}

/// Line reporting a response without any content-type header.
pub open spec fn no_content_type_line() -> Seq<char> {
    "Error: response header contained no content type. Could not download."@
}

/// Line reporting an unsupported content type.
pub open spec fn unsupported_line() -> Seq<char> {
    "Invalid or Unsupported HTTP Content Type: Could not process request"@
}

/// Line reporting a supported content type.
pub open spec fn supported_line() -> Seq<char> {
    "Content type is supported"@
}

/// Line announcing the body download.
pub open spec fn beginning_line() -> Seq<char> {
    "Beginning download..."@
}

/// Line reporting a transport-level failure.
pub open spec fn transport_failure_line(message: Seq<char>) -> Seq<char> {
    "Http request failed! Returned an error: "@ + message
}

/// Line reporting a failure while reading the response body.
pub open spec fn body_failure_line(message: Seq<char>) -> Seq<char> {
    "Error while reading bytes from response body: "@ + message
}

/// Line reporting a failure while writing the output file.
pub open spec fn write_failure_line(message: Seq<char>) -> Seq<char> {
    "Download aborted! An error occurred: "@ + message
}

/// Line reporting a completed download.
pub open spec fn complete_line() -> Seq<char> {
    "Download Complete"@
}

/// A line that announces a fetch attempt for some URL.
pub open spec fn is_running_line(line: Seq<char>) -> bool {
    "Running request for "@.is_prefix_of(line)
}

/// Everything the outside world can decide about one request: how far
/// it got and with what error text. Ghost model only; the live driver
/// learns these facts one step at a time.
pub enum RequestOutcome {
    TransportFailure { message: Seq<char> },
    MissingContentType,
    UnsupportedContentType,
    BodyReadFailure { message: Seq<char> },
    WriteFailure { message: Seq<char> },
    Written,
}

/// The exact status lines one request emits, in order, for a given
/// outcome.
pub open spec fn request_statuses(url: Seq<char>, outcome: RequestOutcome) -> Seq<Seq<char>> {
    seq![running_line(url)] + match outcome {
        RequestOutcome::TransportFailure { message } => seq![transport_failure_line(message)],
        RequestOutcome::MissingContentType => seq![
            response_ok_line(),
            checking_line(),
            no_content_type_line(),
        ],
        RequestOutcome::UnsupportedContentType => seq![
            response_ok_line(),
            checking_line(),
            unsupported_line(),
        ],
        RequestOutcome::BodyReadFailure { message } => seq![
            response_ok_line(),
            checking_line(),
            supported_line(),
            beginning_line(),
            body_failure_line(message),
        ],
        RequestOutcome::WriteFailure { message } => seq![
            response_ok_line(),
            checking_line(),
            supported_line(),
            beginning_line(),
            write_failure_line(message),
        ],
        RequestOutcome::Written => seq![
            response_ok_line(),
            checking_line(),
            supported_line(),
            beginning_line(),
            complete_line(),
        ],
    }
}

/// The status lines a whole batch emits: each request's block in input
/// order, independent of every other request's outcome.
pub open spec fn batch_statuses(urls: Seq<Seq<char>>, outcomes: Seq<RequestOutcome>) -> Seq<
    Seq<char>,
>
    decreases urls.len(),
{
    if urls.len() == 0 {
        Seq::empty()
    } else {
        request_statuses(urls[0], outcomes[0]) + batch_statuses(
            urls.drop_first(),
            outcomes.drop_first(),
        )
    }
}

/// How many lines of `lines` satisfy `pred`.
pub open spec fn count_matching(lines: Seq<Seq<char>>, pred: spec_fn(Seq<char>) -> bool) -> int
    decreases lines.len(),
{
    if lines.len() == 0 {
        0
    } else {
        (if pred(lines[0]) {
            1int
        } else {
            0int
        }) + count_matching(lines.drop_first(), pred)
    }
}

proof fn lemma_count_matching_add(a: Seq<Seq<char>>, b: Seq<Seq<char>>, pred: spec_fn(Seq<char>) -> bool)
    ensures
        count_matching(a + b, pred) == count_matching(a, pred) + count_matching(b, pred),
    decreases a.len(),
{
    if a.len() == 0 {
        assert(a + b =~= b);
    } else {
        assert((a + b)[0] == a[0]);
        assert((a + b).drop_first() =~= a.drop_first() + b);
        lemma_count_matching_add(a.drop_first(), b, pred);
    }
}

proof fn lemma_count_matching_zero(lines: Seq<Seq<char>>, pred: spec_fn(Seq<char>) -> bool)
    requires
        forall|i: int| 0 <= i < lines.len() ==> !pred(#[trigger] lines[i]),
    ensures
        count_matching(lines, pred) == 0,
    decreases lines.len(),
{
    if lines.len() == 0 {
    } else {
        lemma_count_matching_zero(lines.drop_first(), pred);
    }
}

/// A line that is too short for the announcement prefix, or differs
/// from it at position `i`, is no announcement.
proof fn lemma_not_running_at(l: Seq<char>, i: int)
    requires
        0 <= i < 20,
        l.len() < 20 || l[i] != "Running request for "@[i],
    ensures
        !is_running_line(l),
{
    reveal_strlit("Running request for ");
    assert("Running request for "@.len() == 20);
    if is_running_line(l) {
        assert(l.len() >= 20);
        assert("Running request for "@[i] == l.subrange(0, 20)[i]);
        assert(l.subrange(0, 20)[i] == l[i]);
        assert(false);
    }
}

/// No status line other than the announcement itself starts with the
/// announcement prefix.
proof fn lemma_other_lines_not_running()
    ensures
        !is_running_line(no_input_line()),
        !is_running_line(response_ok_line()),
        !is_running_line(checking_line()),
        !is_running_line(no_content_type_line()),
        !is_running_line(unsupported_line()),
        !is_running_line(supported_line()),
        !is_running_line(beginning_line()),
        !is_running_line(complete_line()),
        forall|m: Seq<char>| !is_running_line(#[trigger] transport_failure_line(m)),
        forall|m: Seq<char>| !is_running_line(#[trigger] body_failure_line(m)),
        forall|m: Seq<char>| !is_running_line(#[trigger] write_failure_line(m)),
        forall|url: Seq<char>| is_running_line(#[trigger] running_line(url)),
{
    reveal_strlit("Running request for ");
    reveal_strlit("There was no input provided to fetch");
    reveal_strlit("Response returned successfully!");
    reveal_strlit("Checking response content type...");
    reveal_strlit("Error: response header contained no content type. Could not download.");
    reveal_strlit("Invalid or Unsupported HTTP Content Type: Could not process request");
    reveal_strlit("Content type is supported");
    reveal_strlit("Beginning download...");
    reveal_strlit("Download Complete");
    reveal_strlit("Http request failed! Returned an error: ");
    reveal_strlit("Error while reading bytes from response body: ");
    reveal_strlit("Download aborted! An error occurred: ");
    lemma_not_running_at(no_input_line(), 0);
    lemma_not_running_at(response_ok_line(), 1);
    lemma_not_running_at(checking_line(), 0);
    lemma_not_running_at(no_content_type_line(), 0);
    lemma_not_running_at(unsupported_line(), 0);
    lemma_not_running_at(supported_line(), 0);
    lemma_not_running_at(beginning_line(), 0);
    lemma_not_running_at(complete_line(), 0);
    assert forall|m: Seq<char>| !is_running_line(#[trigger] transport_failure_line(m)) by {
        assert(transport_failure_line(m)[0] == 'H');
        lemma_not_running_at(transport_failure_line(m), 0);
    }
    assert forall|m: Seq<char>| !is_running_line(#[trigger] body_failure_line(m)) by {
        assert(body_failure_line(m)[0] == 'E');
        lemma_not_running_at(body_failure_line(m), 0);
    }
    assert forall|m: Seq<char>| !is_running_line(#[trigger] write_failure_line(m)) by {
        assert(write_failure_line(m)[0] == 'D');
        lemma_not_running_at(write_failure_line(m), 0);
    }
    assert forall|url: Seq<char>| is_running_line(#[trigger] running_line(url)) by {
        assert(running_line(url).subrange(0, 20) =~= "Running request for "@);
    }
}

/// One request's status block announces exactly one fetch attempt,
/// whatever its outcome.
pub proof fn lemma_request_announced_once(url: Seq<char>, outcome: RequestOutcome)
    ensures
        count_matching(request_statuses(url, outcome), |l: Seq<char>| is_running_line(l)) == 1,
{
    lemma_other_lines_not_running();
    let pred = |l: Seq<char>| is_running_line(l);
    let lines = request_statuses(url, outcome);
    let head = seq![running_line(url)];
    let tail = lines.drop_first();
    assert(lines[0] == running_line(url));
    assert forall|i: int| 0 <= i < tail.len() implies !pred(#[trigger] tail[i]) by {
        assert(tail[i] == lines[i + 1]);
    }
    lemma_count_matching_zero(tail, pred);
}

/// Every request in a batch is announced exactly once: a transport
/// failure (or any other outcome) for one URL never suppresses the
/// fetch attempts for the URLs after it.
pub proof fn lemma_every_request_attempted(urls: Seq<Seq<char>>, outcomes: Seq<RequestOutcome>)
    requires
        urls.len() == outcomes.len(),
    ensures
        count_matching(batch_statuses(urls, outcomes), |l: Seq<char>| is_running_line(l))
            == urls.len(),
    decreases urls.len(),
{
    if urls.len() == 0 {
    } else {
        lemma_request_announced_once(urls[0], outcomes[0]);
        lemma_count_matching_add(
            request_statuses(urls[0], outcomes[0]),
            batch_statuses(urls.drop_first(), outcomes.drop_first()),
            |l: Seq<char>| is_running_line(l),
        );
        lemma_every_request_attempted(urls.drop_first(), outcomes.drop_first());
    }
}

/// An unsupported content type is reported by exactly one status line
/// of its request's block.
pub proof fn lemma_unsupported_reported_once(url: Seq<char>)
    ensures
        count_matching(
            request_statuses(url, RequestOutcome::UnsupportedContentType),
            |l: Seq<char>| l == unsupported_line(),
        ) == 1,
{
    reveal_strlit("Running request for ");
    reveal_strlit("Response returned successfully!");
    reveal_strlit("Checking response content type...");
    reveal_strlit("Invalid or Unsupported HTTP Content Type: Could not process request");
    let pred = |l: Seq<char>| l == unsupported_line();
    let lines = request_statuses(url, RequestOutcome::UnsupportedContentType);
    assert(running_line(url).len() >= 20) by {
        assert(running_line(url) == "Running request for "@ + url);
    }
    assert(running_line(url)[0] == 'R');
    assert(unsupported_line()[0] == 'I');
    assert(!pred(lines[0]));
    let tail = lines.drop_first();
    assert(tail =~= seq![response_ok_line(), checking_line(), unsupported_line()]);
    assert(!pred(tail[0]));
    assert(!pred(tail[1]));
    assert(pred(tail[2]));
    let tail2 = tail.drop_first();
    assert(tail2 =~= seq![checking_line(), unsupported_line()]);
    let tail3 = tail2.drop_first();
    assert(tail3 =~= seq![unsupported_line()]);
    let tail4 = tail3.drop_first();
    assert(tail4 =~= Seq::<Seq<char>>::empty());
    assert(count_matching(tail4, pred) == 0);
    assert(count_matching(tail3, pred) == 1);
    assert(count_matching(tail2, pred) == 1);
    assert(count_matching(tail, pred) == 1);
    assert(count_matching(lines, pred) == 1);
}

} // verus!
