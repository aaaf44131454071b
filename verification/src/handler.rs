//! The transaction-query handler: decides what a query renders from
//! the daemon's outcome. A failed daemon run surfaces the daemon's
//! error text; a successful one is parsed and condensed into a report
//! holding the sender, the message list and the two event summaries.

use vstd::prelude::*;

use crate::errors::CliError;
use crate::jsonval::{json_parsed_of, obj_member_of};
use crate::model::{Message, TransactionResponse};
use crate::parse::{array_member, parse_response, response_matches, response_ok};
use crate::registry::{Registry, RegistryEntry};
use crate::summarize::{summarize_events, summary_of};

verus! {

/// What one run of the external daemon produced: whether it succeeded,
/// and its raw output and error text.
pub struct DaemonOutput {
    pub success: bool,
    pub stdout: String,
    pub stderr: String,
}

/// What a transaction query renders: the first message's sender, the
/// full message list, the summary of the response's top-level events
/// (decoded) and the summary of the first log's events (not decoded).
pub struct TxReport {
    pub sender: String,
    pub messages: Vec<Message>,
    pub events_summary: String,
    pub logs_summary: String,
}

/// A report is faithful to a response: the sender is the first
/// message's, the messages are the response's, and the two summaries
/// are the summarizer's output, decoding only the top-level events.
pub open spec fn report_matches(
    resp: TransactionResponse,
    entries: Seq<RegistryEntry>,
    rep: TxReport,
) -> bool {
    &&& rep.sender@ == resp.tx.body.messages@[0].sender@
    &&& rep.messages == resp.tx.body.messages
    &&& rep.events_summary@ == summary_of(resp.events@, true, entries)
    &&& rep.logs_summary@ == summary_of(resp.logs@[0].events@, false, entries)
}

/// The message elements of a response document's `tx.body`.
pub open spec fn doc_messages(root: serde_json::Value) -> Seq<serde_json::Value> {
    array_member(obj_member_of(obj_member_of(root, "tx"@)->Some_0, "body"@)->Some_0, "messages"@)
}

/// The log elements of a response document.
pub open spec fn doc_logs(root: serde_json::Value) -> Seq<serde_json::Value> {
    array_member(root, "logs"@)
}

/// What processing a raw response text owes: `ParseError` exactly when
/// the text is not a well-shaped response document; the two
/// empty-condition errors decided by the document's own message and
/// log counts; otherwise a report faithful to the response the text
/// parses to.
pub open spec fn report_outcome(
    s: Seq<char>,
    entries: Seq<RegistryEntry>,
    r: Result<TxReport, CliError>,
) -> bool {
    if !response_ok(s) {
        r matches Err(e) && e matches CliError::ParseError(_)
    } else {
        let root = json_parsed_of(s)->Some_0;
        if doc_messages(root).len() == 0 {
            r == Err::<TxReport, CliError>(CliError::EmptyMessagesError)
        } else if doc_logs(root).len() == 0 {
            r == Err::<TxReport, CliError>(CliError::EmptyLogsError)
        } else {
            r matches Ok(rep) && exists|resp: TransactionResponse|
                #[trigger] report_matches(resp, entries, rep) && response_matches(s, resp)
                    && resp.tx.body.messages@.len() > 0 && resp.logs@.len() > 0
        }
    }
}

/// Condense a parsed response into its report. Fails with
/// `EmptyMessagesError` when the response holds no messages, and with
/// `EmptyLogsError` when it holds messages but no logs; any other
/// response yields a faithful report.
pub fn report_of_response(resp: TransactionResponse, registry: &Registry) -> (r: Result<
    TxReport,
    CliError,
>)
    ensures
        resp.tx.body.messages@.len() == 0 ==> r == Err::<TxReport, CliError>(
            CliError::EmptyMessagesError,
        ),
        resp.tx.body.messages@.len() > 0 && resp.logs@.len() == 0 ==> r == Err::<TxReport, CliError>(
            CliError::EmptyLogsError,
        ),
        resp.tx.body.messages@.len() > 0 && resp.logs@.len() > 0 ==> (r matches Ok(rep)
            && report_matches(resp, registry.entries@, rep)),
{
    if resp.tx.body.messages.len() == 0 {
        return Err(CliError::EmptyMessagesError);
    }
    if resp.logs.len() == 0 {
        return Err(CliError::EmptyLogsError);
    }
    let sender = resp.tx.body.messages[0].sender.clone();
    let events_summary = summarize_events(&resp.events, true, registry);
    let logs_summary = summarize_events(&resp.logs[0].events, false, registry);
    Ok(TxReport { sender, messages: resp.tx.body.messages, events_summary, logs_summary })
}

/// Parse raw daemon output and condense it into a report. Exactly the
/// text that is not a well-shaped response document yields
/// `ParseError`; a document without messages, or with messages but
/// without logs, yields the matching empty-condition error; any other
/// document yields a report faithful to the response it parses to.
pub fn process_tx_response(raw: &str, registry: &Registry) -> (r: Result<TxReport, CliError>)
    ensures
        report_outcome(raw@, registry.entries@, r),
        r matches Err(e) ==> (e matches CliError::ParseError(_) || e
            == CliError::EmptyMessagesError || e == CliError::EmptyLogsError),
{
    let resp = match parse_response(raw) {
        Ok(v) => v,
        Err(e) => {
            return Err(e);
        },
    };
    let ghost resp_spec = resp;
    proof {
        let root = json_parsed_of(raw@)->Some_0;
        assert(resp_spec.tx.body.messages@.len() == doc_messages(root).len());
        assert(resp_spec.logs@.len() == doc_logs(root).len());
    }
    match report_of_response(resp, registry) {
        Ok(rep) => {
            proof {
                assert(report_matches(resp_spec, registry.entries@, rep) && response_matches(
                    raw@,
                    resp_spec,
                ) && resp_spec.tx.body.messages@.len() > 0 && resp_spec.logs@.len() > 0);
            }
            Ok(rep)
        },
        Err(e) => Err(e),
    }
}

/// Decide what a transaction query renders from the daemon's outcome.
/// A failed run yields `CommandError` carrying the daemon's error text
/// and attempts no parsing; a successful one is parsed and condensed,
/// owing exactly what processing its output text owes.
pub fn handle_tx_output(output: DaemonOutput, registry: &Registry) -> (r: Result<TxReport, CliError>)
    ensures
        !output.success ==> (r matches Err(e) && e matches CliError::CommandError(m) && m@
            == output.stderr@),
        output.success ==> report_outcome(output.stdout@, registry.entries@, r),
        output.success ==> (r matches Err(e) ==> (e matches CliError::ParseError(_) || e
            == CliError::EmptyMessagesError || e == CliError::EmptyLogsError)),
{
    if !output.success {
        return Err(CliError::CommandError(output.stderr));
    }
    process_tx_response(output.stdout.as_str(), registry)
}

} // verus!
