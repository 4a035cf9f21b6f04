//! The remote execution service: the request it is sent, the record it
//! answers with, and what that record means.

use vstd::prelude::*;
use vstd::string::StringExecFns;
use crate::format::{render, rendered};
use crate::json::{json_object, member, parse_object, Member, MemberModel};
use crate::message::{text_view, Markup, Outbound, OutboundModel};
use crate::outcome::{ExecutionModel, ExecutionResult, Fault};

verus! {

/// The address at which rextester takes programs.
pub const ENDPOINT: &'static str = "https://rextester.com/rundotnet/api";

/// The code by which rextester knows Rust.
pub const RUST: &'static str = "46";

/// A form to post: where to, and the fields in the order they are sent.
#[derive(Clone, Debug, PartialEq, Eq)]
pub struct Request {
    pub endpoint: String,
    pub fields: Vec<(String, String)>,
}

/// A [`Request`] with its texts as sequences of characters.
pub struct RequestModel {
    pub endpoint: Seq<char>,
    pub fields: Seq<(Seq<char>, Seq<char>)>,
}

impl View for Request {
    type V = RequestModel;

    open spec fn view(&self) -> RequestModel {
        RequestModel {
            endpoint: self.endpoint@,
            fields: Seq::new(self.fields@.len(), |i: int| (self.fields@[i].0@, self.fields@[i].1@)),
        }
    }
}

/// The form that submits `program` in the language `language`: the language
/// code first, then the program, untouched.
pub open spec fn submission(endpoint: Seq<char>, language: Seq<char>, program: Seq<char>)
    -> RequestModel {
    RequestModel {
        endpoint,
        fields: seq![("LanguageChoice"@, language), ("Program"@, program)],
    }
}

/// Builds the form that submits `program`.
pub fn request(endpoint: &str, language: &str, program: &str) -> (req: Request)
    ensures
        req@ == submission(endpoint@, language@, program@),
{
    let mut fields: Vec<(String, String)> = Vec::new();
    fields.push((String::from_str("LanguageChoice"), String::from_str(language)));
    fields.push((String::from_str("Program"), String::from_str(program)));
    let req = Request { endpoint: String::from_str(endpoint), fields };
    assert(req@.fields =~= submission(endpoint@, language@, program@).fields);
    req
}

/// The record that the service answers with. `stats` is always there and is
/// never shown to the user.
#[derive(Clone, Debug, PartialEq, Eq)]
pub struct RemoteReply {
    pub warnings: Option<String>,
    pub errors: Option<String>,
    pub result: Option<String>,
    pub stats: String,
}

/// A [`RemoteReply`] with its texts as sequences of characters.
pub struct ReplyModel {
    pub warnings: Option<Seq<char>>,
    pub errors: Option<Seq<char>>,
    pub result: Option<Seq<char>>,
    pub stats: Seq<char>,
}

impl View for RemoteReply {
    type V = ReplyModel;

    open spec fn view(&self) -> ReplyModel {
        ReplyModel {
            warnings: text_view(self.warnings),
            errors: text_view(self.errors),
            result: text_view(self.result),
            stats: self.stats@,
        }
    }
}

/// A member that the record may do without: absent and `null` both mean
/// that it is not there.
pub open spec fn optional(found: Option<MemberModel>) -> Result<Option<Seq<char>>, Fault> {
    match found {
        None => Ok(None),
        Some(MemberModel::Null) => Ok(None),
        Some(MemberModel::Text(text)) => Ok(Some(text)),
        Some(MemberModel::Other) => Err(Fault::Field),
    }
}

/// A member that the record must have, as a string.
pub open spec fn required(found: Option<MemberModel>) -> Result<Seq<char>, Fault> {
    match found {
        None => Err(Fault::NoStats),
        Some(MemberModel::Text(text)) => Ok(text),
        Some(_) => Err(Fault::Field),
    }
}

/// The record made of the four members, or the fault of the first member,
/// in the order given, that is not as it must be.
pub open spec fn assembled(
    warnings: Option<MemberModel>,
    errors: Option<MemberModel>,
    result: Option<MemberModel>,
    stats: Option<MemberModel>,
) -> Result<ReplyModel, Fault> {
    match (optional(warnings), optional(errors), optional(result), required(stats)) {
        (Ok(warnings), Ok(errors), Ok(result), Ok(stats)) => Ok(
            ReplyModel { warnings, errors, result, stats },
        ),
        (Err(fault), _, _, _) => Err(fault),
        (_, Err(fault), _, _) => Err(fault),
        (_, _, Err(fault), _) => Err(fault),
        (_, _, _, Err(fault)) => Err(fault),
    }
}

/// The member of `object` under `key`, if it has one.
pub open spec fn at(object: Map<Seq<char>, MemberModel>, key: Seq<char>) -> Option<MemberModel> {
    if object.contains_key(key) {
        Some(object[key])
    } else {
        None
    }
}

/// The record that a parsed response holds. Members under other keys are
/// passed over.
pub open spec fn decoded(object: Option<Map<Seq<char>, MemberModel>>) -> Result<ReplyModel, Fault> {
    match object {
        None => Err(Fault::NotJson),
        Some(object) => assembled(
            at(object, "Warnings"@),
            at(object, "Errors"@),
            at(object, "Result"@),
            at(object, "Stats"@),
        ),
    }
}

/// What a record means: with a result the program ran, whatever else the
/// record holds; without one it failed, for the reasons under `errors`.
pub open spec fn interpreted(reply: ReplyModel) -> Result<ExecutionModel, Fault> {
    match reply.result {
        Some(result) => Ok(ExecutionModel::Success { stdout: result, warnings: reply.warnings }),
        None => match reply.errors {
            Some(errors) => Ok(ExecutionModel::Failure { errors, warnings: reply.warnings }),
            None => Err(Fault::NoOutcome),
        },
    }
}

/// The view of a member that may be missing.
pub open spec fn seen(found: Option<Member>) -> Option<MemberModel> {
    match found {
        Some(m) => Some(m@),
        None => None,
    }
}

fn take_optional(found: Option<Member>) -> (text: Result<Option<String>, Fault>)
    ensures
        match text {
            Ok(t) => optional(seen(found)) == Ok::<Option<Seq<char>>, Fault>(text_view(t)),
            Err(fault) => optional(seen(found)) == Err::<Option<Seq<char>>, Fault>(fault),
        },
{
    match found {
        None => Ok(None),
        Some(Member::Null) => Ok(None),
        Some(Member::Text(text)) => Ok(Some(text)),
        Some(Member::Other) => Err(Fault::Field),
    }
}

fn take_required(found: Option<Member>) -> (text: Result<String, Fault>)
    ensures
        match text {
            Ok(t) => required(seen(found)) == Ok::<Seq<char>, Fault>(t@),
            Err(fault) => required(seen(found)) == Err::<Seq<char>, Fault>(fault),
        },
{
    match found {
        None => Err(Fault::NoStats),
        Some(Member::Text(text)) => Ok(text),
        Some(Member::Null) => Err(Fault::Field),
        Some(Member::Other) => Err(Fault::Field),
    }
}

/// Makes the record of the four members found in a response.
pub fn assemble(
    warnings: Option<Member>,
    errors: Option<Member>,
    result: Option<Member>,
    stats: Option<Member>,
) -> (reply: Result<RemoteReply, Fault>)
    ensures
        match reply {
            Ok(r) => assembled(seen(warnings), seen(errors), seen(result), seen(stats)) == Ok::<
                ReplyModel,
                Fault,
            >(r@),
            Err(fault) => assembled(seen(warnings), seen(errors), seen(result), seen(stats)) == Err::<
                ReplyModel,
                Fault,
            >(fault),
        },
{
    let warnings = match take_optional(warnings) {
        Ok(text) => text,
        Err(fault) => { return Err(fault); },
    };
    let errors = match take_optional(errors) {
        Ok(text) => text,
        Err(fault) => { return Err(fault); },
    };
    let result = match take_optional(result) {
        Ok(text) => text,
        Err(fault) => { return Err(fault); },
    };
    let stats = match take_required(stats) {
        Ok(text) => text,
        Err(fault) => { return Err(fault); },
    };
    Ok(RemoteReply { warnings, errors, result, stats })
}

/// Reads the record out of the body of a response.
pub fn decode(body: &str) -> (reply: Result<RemoteReply, Fault>)
    ensures
        match reply {
            Ok(r) => decoded(json_object(body@)) == Ok::<ReplyModel, Fault>(r@),
            Err(fault) => decoded(json_object(body@)) == Err::<ReplyModel, Fault>(fault),
        },
{
    match parse_object(body) {
        Err(_) => Err(Fault::NotJson),
        Ok(doc) => {
            let warnings = member(&doc, "Warnings");
            let errors = member(&doc, "Errors");
            let result = member(&doc, "Result");
            let stats = member(&doc, "Stats");
            assemble(warnings, errors, result, stats)
        },
    }
}

/// Says what a record means.
pub fn interpret(reply: RemoteReply) -> (outcome: Result<ExecutionResult, Fault>)
    ensures
        match outcome {
            Ok(o) => interpreted(reply@) == Ok::<ExecutionModel, Fault>(o@),
            Err(fault) => interpreted(reply@) == Err::<ExecutionModel, Fault>(fault),
        },
{
    let RemoteReply { warnings, errors, result, stats: _ } = reply;
    match result {
        Some(stdout) => Ok(ExecutionResult::Success { stdout, warnings }),
        None => match errors {
            Some(errors) => Ok(ExecutionResult::Failure { errors, warnings }),
            None => Err(Fault::NoOutcome),
        },
    }
}

/// How a request to the service ended.
#[derive(Clone, Debug, PartialEq, Eq)]
pub enum Fetched {
    /// The service answered, with this body.
    Body(String),
    /// The request did not complete, or the response was not text.
    Failed,
}

/// The reply to `chat` for a record, or the fault that keeps it silent.
pub open spec fn answered(chat: i64, reply: ReplyModel) -> Result<OutboundModel, Fault> {
    match interpreted(reply) {
        Err(fault) => Err(fault),
        Ok(outcome) => Ok(OutboundModel { chat, text: rendered(outcome), markup: Markup::Plain }),
    }
}

/// Turns a record into the reply for `chat`.
pub fn answer(chat: i64, reply: RemoteReply) -> (out: Result<Outbound, Fault>)
    ensures
        match out {
            Ok(o) => answered(chat, reply@) == Ok::<OutboundModel, Fault>(o@),
            Err(fault) => answered(chat, reply@) == Err::<OutboundModel, Fault>(fault),
        },
{
    match interpret(reply) {
        Err(fault) => Err(fault),
        Ok(outcome) => Ok(Outbound { chat, text: render(&outcome), markup: Markup::Plain }),
    }
}

/// The end of a remote command: a failed request stays silent, and so does
/// a response that is not the record; a record with a result or with errors
/// is answered.
pub open spec fn settled(chat: i64, fetched: Fetched) -> Result<OutboundModel, Fault> {
    match fetched {
        Fetched::Failed => Err(Fault::Transport),
        Fetched::Body(body) => match decoded(json_object(body@)) {
            Err(fault) => Err(fault),
            Ok(reply) => answered(chat, reply),
        },
    }
}

/// Ends a remote command with the reply for `chat`, or with the fault that
/// keeps it silent.
pub fn settle(chat: i64, fetched: &Fetched) -> (out: Result<Outbound, Fault>)
    ensures
        match out {
            Ok(o) => settled(chat, *fetched) == Ok::<OutboundModel, Fault>(o@),
            Err(fault) => settled(chat, *fetched) == Err::<OutboundModel, Fault>(fault),
        },
{
    match fetched {
        Fetched::Failed => Err(Fault::Transport),
        Fetched::Body(body) => match decode(body.as_str()) {
            Err(fault) => Err(fault),
            Ok(reply) => answer(chat, reply),
        },
    }
}

} // verus!
