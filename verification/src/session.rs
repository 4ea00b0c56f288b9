//! One retrieval session: the raw input text, the output directory,
//! and the ordered status log, together with the decision steps that
//! drive one request from fetch outcome to written file.
//!
//! The session never touches the network or the file system itself.
//! A driver performs each effect and hands the outcome back as a plain
//! value; the steps here decide what happens next and append the
//! status lines, so every decision and every line is pinned down by a
//! contract.

use vstd::prelude::*;

verus! {

use crate::ImageType;
use crate::names;
use crate::parse;
use crate::status;
use vstd::string::StrSliceExecFns;
use vstd::string::StringExecFns;

/// What a transport attempt produced: a response whose only relevant
/// part is its content-type header value, or a failure description.
pub enum FetchOutcome {
    Success { content_type: Option<String> },
    Failure { message: String },
}

/// What reading a response body produced: its bytes, or a failure
/// description.
pub enum BodyOutcome {
    Bytes { bytes: Vec<u8> },
    Failure { message: String },
}

/// The mutable state of one batch run: raw request text, the
/// append-only status log, and the directory downloads go to.
pub struct RetrieverState {
    pub requests_input: String,
    pub feedback: Vec<String>,
    pub export_dir: String,
}

impl RetrieverState {
    /// A fresh session writing to `export_dir`, with no input and an
    /// empty log.
    pub fn new(export_dir: String) -> (s: Self)
        ensures
            s.requests_input@ == Seq::<char>::empty(),
            s.feedback@ == Seq::<String>::empty(),
            s.export_dir == export_dir,
    {
        RetrieverState { requests_input: String::new(), feedback: Vec::new(), export_dir }
    }

    /// Appends one line to the status log.
    pub fn log_feedback(&mut self, feedback_string: String)
        ensures
            final(self).feedback.deep_view() == old(self).feedback.deep_view().push(
                feedback_string@,
            ),
            final(self).requests_input == old(self).requests_input,
            final(self).export_dir == old(self).export_dir,
    {
        let ghost dv0: Seq<Seq<char>> = self.feedback.deep_view();
        let ghost line: Seq<char> = feedback_string@;
        self.feedback.push(feedback_string);
        proof {
            assert(self.feedback.deep_view() =~= dv0.push(line));
        }
    }

    /// Resets the session: input and log emptied, directory kept.
    pub fn clear(&mut self)
        ensures
            final(self).requests_input@ == Seq::<char>::empty(),
            final(self).feedback@ == Seq::<String>::empty(),
            final(self).export_dir == old(self).export_dir,
    {
        self.requests_input = String::new();
        self.feedback = Vec::new();
    }

    /// Starts a batch: empty input is reported as the single status
    /// line of the run and yields no requests; otherwise the input is
    /// parsed into the ordered request list and the log is untouched.
    pub fn start_batch(&mut self) -> (r: Option<Vec<String>>)
        ensures
            final(self).requests_input == old(self).requests_input,
            final(self).export_dir == old(self).export_dir,
            old(self).requests_input@.len() == 0 ==> r is None && final(self).feedback.deep_view()
                == old(self).feedback.deep_view().push(status::no_input_line()),
            old(self).requests_input@.len() > 0 ==> final(self).feedback == old(self).feedback && (
            r matches Some(v) && v.deep_view() == parse::parse_spec(old(self).requests_input@)),
    {
        if self.requests_input.as_str().unicode_len() == 0 {
            self.log_feedback(String::from_str("There was no input provided to fetch"));
            None
        } else {
            let input = self.requests_input.clone();
            Some(parse::parse_requests(input))
        }
    }

    /// Announces the fetch attempt for one request URL.
    pub fn begin_request(&mut self, request: &String)
        ensures
            final(self).feedback.deep_view() == old(self).feedback.deep_view().push(
                status::running_line(request@),
            ),
            final(self).requests_input == old(self).requests_input,
            final(self).export_dir == old(self).export_dir,
    {
        let line = String::from_str("Running request for ").concat(request.as_str());
        self.log_feedback(line);
    }

    /// Decides what follows a transport attempt: logs the outcome's
    /// lines and returns the classified kind when, and only when, the
    /// download should proceed.
    pub fn handle_fetch(&mut self, outcome: &FetchOutcome) -> (k: Option<ImageType>)
        ensures
            final(self).requests_input == old(self).requests_input,
            final(self).export_dir == old(self).export_dir,
            outcome matches FetchOutcome::Failure { message } ==> k is None && final(self).feedback.deep_view() == old(self).feedback.deep_view().push(
                status::transport_failure_line(message@),
            ),
            outcome matches FetchOutcome::Success { content_type: None } ==> k is None && final(self).feedback.deep_view() == old(self).feedback.deep_view() + seq![
                status::response_ok_line(),
                status::checking_line(),
                status::no_content_type_line(),
            ],
            outcome matches FetchOutcome::Success { content_type: Some(ct) } ==> {
                &&& !crate::classify_spec(ct@).is_supported() ==> k is None && final(self).feedback.deep_view() == old(self).feedback.deep_view() + seq![
                    status::response_ok_line(),
                    status::checking_line(),
                    status::unsupported_line(),
                ]
                &&& crate::classify_spec(ct@).is_supported() ==> k == Some(crate::classify_spec(ct@))
                    && final(self).feedback.deep_view() == old(self).feedback.deep_view() + seq![
                    status::response_ok_line(),
                    status::checking_line(),
                    status::supported_line(),
                    status::beginning_line(),
                ]
            },
    {
        let ghost dv0: Seq<Seq<char>> = self.feedback.deep_view();
        match outcome {
            FetchOutcome::Failure { message } => {
                let line = String::from_str("Http request failed! Returned an error: ").concat(
                    message.as_str(),
                );
                self.log_feedback(line);
                None
            },
            FetchOutcome::Success { content_type } => {
                self.log_feedback(String::from_str("Response returned successfully!"));
                self.log_feedback(String::from_str("Checking response content type..."));
                match content_type {
                    None => {
                        self.log_feedback(
                            String::from_str(
                                "Error: response header contained no content type. Could not download.",
                            ),
                        );
                        proof {
                            assert(self.feedback.deep_view() =~= dv0 + seq![
                                status::response_ok_line(),
                                status::checking_line(),
                                status::no_content_type_line(),
                            ]);
                        }
                        None
                    },
                    Some(ct) => {
                        let kind = crate::classify(ct.as_str());
                        if kind.supported() {
                            self.log_feedback(String::from_str("Content type is supported"));
                            self.log_feedback(String::from_str("Beginning download..."));
                            proof {
                                assert(self.feedback.deep_view() =~= dv0 + seq![
                                    status::response_ok_line(),
                                    status::checking_line(),
                                    status::supported_line(),
                                    status::beginning_line(),
                                ]);
                            }
                            Some(kind)
                        } else {
                            self.log_feedback(
                                String::from_str(
                                    "Invalid or Unsupported HTTP Content Type: Could not process request",
                                ),
                            );
                            proof {
                                assert(self.feedback.deep_view() =~= dv0 + seq![
                                    status::response_ok_line(),
                                    status::checking_line(),
                                    status::unsupported_line(),
                                ]);
                            }
                            None
                        }
                    },
                }
            },
        }
    }

    /// Decides what follows the body read: a read failure is logged
    /// and ends the request; bytes yield the resolved file name and
    /// the bytes to write, with nothing logged yet.
    pub fn handle_body(&mut self, request: &String, kind: ImageType, outcome: BodyOutcome) -> (w:
        Option<(String, Vec<u8>)>)
        requires
            kind.is_supported(),
        ensures
            final(self).requests_input == old(self).requests_input,
            final(self).export_dir == old(self).export_dir,
            outcome matches BodyOutcome::Failure { message } ==> w is None && final(self).feedback.deep_view() == old(self).feedback.deep_view().push(
                status::body_failure_line(message@),
            ),
            outcome matches BodyOutcome::Bytes { bytes } ==> final(self).feedback == old(self).feedback && (w matches Some(p) && p.0@ == names::resolve_spec(request@, kind) && p.1@
                == bytes@),
    {
        match outcome {
            BodyOutcome::Failure { message } => {
                let line = String::from_str("Error while reading bytes from response body: ")
                    .concat(message.as_str());
                self.log_feedback(line);
                None
            },
            BodyOutcome::Bytes { bytes } => {
                let file_name = names::resolve_name(request, kind);
                Some((file_name, bytes))
            },
        }
    }

    /// Logs how the file write ended: completion, or the error that
    /// aborted the download.
    pub fn handle_write(&mut self, result: &Result<(), String>)
        ensures
            final(self).requests_input == old(self).requests_input,
            final(self).export_dir == old(self).export_dir,
            result is Ok ==> final(self).feedback.deep_view() == old(self).feedback.deep_view()
                .push(status::complete_line()),
            result matches Err(message) ==> final(self).feedback.deep_view() == old(self).feedback.deep_view().push(status::write_failure_line(message@)),
    {
        match result {
            Ok(_) => {
                self.log_feedback(String::from_str("Download Complete"));
            },
            Err(message) => {
                let line = String::from_str("Download aborted! An error occurred: ").concat(
                    message.as_str(),
                );
                self.log_feedback(line);
            },
        }
    }
}

} // verus!
