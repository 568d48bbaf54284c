//! Requests to, and replies from, the `sky rpc` process: one JSON object a line.

use vstd::prelude::*;
use crate::auth::model;
use crate::json;
use crate::json::JsonValue;
use crate::json::JsonView;
use crate::json::Member;
use crate::json::MemberView;
use crate::json::Scalar;
use crate::json::ScalarView;
use crate::text;

verus! {

/// How long, in seconds, to wait for a reply where nothing else is set.
pub const DEFAULT_TIMEOUT_SECS: u64 = 180;

/// What a call gave: its text, and where its screenshot is.
#[derive(Debug, Clone, PartialEq, Eq)]
pub struct SkyCallResult {
    pub text: String,
    pub screenshot_url: Option<String>,
}

/// Why a tool failed.
#[derive(Debug, Clone, PartialEq, Eq)]
pub enum ToolError {
    Custom { code: String, message: String },
    Execution { tool: String, message: String },
}

/// What can go wrong with the `sky rpc` process.
#[derive(Debug, Clone, PartialEq, Eq)]
pub enum SkyFault {
    /// The executable, and why it could not be started.
    Spawn { bin: String, error: String },
    StdinMissing,
    StdoutMissing,
    Write(String),
    Flush(String),
    Read(String),
    /// The process closed its output.
    Closed,
    InvalidJson(String),
    /// The process reported an error.
    Failed(String),
    TimedOut { method: String, secs: u64 },
}

/// The message for a fault.
pub open spec fn fault_text(fault: SkyFault) -> Seq<char> {
    match fault {
        SkyFault::Spawn { bin, error } => "failed to spawn "@ + bin@ + " rpc: "@ + error@,
        SkyFault::StdinMissing => "sky rpc stdin missing"@,
        SkyFault::StdoutMissing => "sky rpc stdout missing"@,
        SkyFault::Write(error) => "sky rpc write failed: "@ + error@,
        SkyFault::Flush(error) => "sky rpc flush failed: "@ + error@,
        SkyFault::Read(error) => "sky rpc read failed: "@ + error@,
        SkyFault::Closed => "sky rpc closed"@,
        SkyFault::InvalidJson(error) => "sky rpc invalid json: "@ + error@,
        SkyFault::Failed(error) => error@,
        SkyFault::TimedOut { method, secs } => "sky "@ + method@ + " timed out after "@
            + text::decimal(secs as nat) + "s"@,
    }
}

fn prefixed(prefix: &str, detail: &str) -> (r: String)
    ensures
        r@ == prefix@ + detail@,
{
    let mut r: String = prefix.to_owned();
    r.append(detail);
    r
}

impl SkyFault {
    /// The message for this fault.
    pub fn message(&self) -> (r: String)
        ensures
            r@ == fault_text(*self),
    {
        match self {
            SkyFault::Spawn { bin, error } => {
                let mut r: String = prefixed("failed to spawn ", bin.as_str());
                r.append(" rpc: ");
                r.append(error.as_str());
                r
            },
            SkyFault::StdinMissing => "sky rpc stdin missing".to_owned(),
            SkyFault::StdoutMissing => "sky rpc stdout missing".to_owned(),
            SkyFault::Write(error) => prefixed("sky rpc write failed: ", error.as_str()),
            SkyFault::Flush(error) => prefixed("sky rpc flush failed: ", error.as_str()),
            SkyFault::Read(error) => prefixed("sky rpc read failed: ", error.as_str()),
            SkyFault::Closed => "sky rpc closed".to_owned(),
            SkyFault::InvalidJson(error) => prefixed("sky rpc invalid json: ", error.as_str()),
            SkyFault::Failed(error) => error.clone(),
            SkyFault::TimedOut { method, secs } => {
                let mut r: String = prefixed("sky ", method.as_str());
                r.append(" timed out after ");
                r.append(text::decimal_text(*secs).as_str());
                r.append("s");
                r
            },
        }
    }

    /// This fault as the error of a tool.
    pub fn error(&self) -> (r: ToolError)
        ensures
            r matches ToolError::Execution { tool, message } && tool@ == "sky"@ && message@
                == fault_text(*self),
    {
        ToolError::Execution { tool: "sky".to_owned(), message: self.message() }
    }
}

/// How long, in seconds, to wait for a reply: a positive number in the setting
/// counts, anything else is passed over.
pub open spec fn timeout(setting: Option<Seq<char>>) -> nat {
    match setting {
        Some(value) => match text::parse_unsigned(value, u64::MAX as nat) {
            Some(secs) => if secs > 0 {
                secs
            } else {
                DEFAULT_TIMEOUT_SECS as nat
            },
            None => DEFAULT_TIMEOUT_SECS as nat,
        },
        None => DEFAULT_TIMEOUT_SECS as nat,
    }
}

/// How long, in seconds, to wait for a reply, given the value of
/// `SKY_TIMEOUT_SECS`.
pub fn timeout_secs(setting: Option<&str>) -> (r: u64)
    ensures
        r == timeout(
            match setting {
                Some(value) => Some(value@),
                None => None,
            },
        ),
        r > 0,
{
    match setting {
        Some(value) => match text::parse_unsigned_text(value, u64::MAX) {
            Some(secs) => if secs > 0 {
                secs
            } else {
                DEFAULT_TIMEOUT_SECS
            },
            None => DEFAULT_TIMEOUT_SECS,
        },
        None => DEFAULT_TIMEOUT_SECS,
    }
}

/// What to do with the process slot before a call.
#[derive(Debug, Clone, Copy, PartialEq, Eq, Structural)]
pub enum SlotAction {
    /// Use the process that is there.
    Reuse,
    /// Drop what is there and start a process.
    Spawn,
}

/// What to do before a call: `alive` says of the process in the slot, where
/// there is one, whether it still runs.
pub fn slot_action(alive: Option<bool>) -> (r: SlotAction)
    ensures
        r == (if alive == Some(true) {
            SlotAction::Reuse
        } else {
            SlotAction::Spawn
        }),
{
    match alive {
        Some(true) => SlotAction::Reuse,
        Some(false) => SlotAction::Spawn,
        None => SlotAction::Spawn,
    }
}

/// Numbers the requests to one process.
#[derive(Debug)]
pub struct SkyRpc {
    next_id: u64,
}

/// The members of a request.
pub open spec fn request_members(id: u64, method: Seq<char>, args: JsonView) -> Seq<
    (Seq<char>, JsonView),
> {
    seq![
        ("id"@, JsonView::Scalar(ScalarView::Text(text::decimal(id as nat)))),
        ("method"@, JsonView::Scalar(ScalarView::Text(method))),
        ("args"@, args),
    ]
}

/// The line that carries a request.
pub open spec fn request_line(id: u64, method: Seq<char>, args: JsonView) -> Seq<char> {
    json::json_object_text(request_members(id, method, args)).push('\n')
}

/// Whether `s` is one line: it ends in a newline and holds no other.
pub open spec fn is_one_line(s: Seq<char>) -> bool {
    s.len() > 0 && s.last() == '\n' && !s.drop_last().contains('\n')
}

fn push_nested(members: &mut Vec<(String, JsonValue)>, name: &str, value: JsonValue)
    ensures
        json::nested_view(final(members)@) == json::nested_view(old(members)@).push(
            (name@, value@),
        ),
{
    members.push((name.to_owned(), value));
    proof {
        assert(json::nested_view(members@) =~= json::nested_view(old(members)@).push(
            (name@, value@),
        ));
    }
}

impl SkyRpc {
    /// The number that the next request gets.
    pub closed spec fn next(self) -> u64 {
        self.next_id
    }

    /// The numbering of a process that was just started.
    pub fn new() -> (r: Self)
        ensures
            r.next() == 1,
    {
        SkyRpc { next_id: 1 }
    }

    /// Whether there is a number left for a request.
    pub fn has_id(&self) -> (r: bool)
        ensures
            r == (self.next() < u64::MAX),
    {
        self.next_id < u64::MAX
    }

    /// Numbers a request and writes its line. Where no argument has a reserved
    /// name, the line can be read back: under `id` it holds the number and under
    /// `method` the method.
    pub fn request(&mut self, method: &str, args: JsonValue) -> (r: (u64, String))
        requires
            old(self).next() < u64::MAX,
        ensures
            r.0 == old(self).next(),
            final(self).next() == old(self).next() + 1,
            r.1@ == request_line(r.0, method@, args@),
            is_one_line(r.1@),
            json::is_plain_value(args@) ==> json::holds_text(
                text::trim(r.1@),
                "id"@,
                text::decimal(r.0 as nat),
            ),
            json::is_plain_value(args@) ==> json::holds_text(
                text::trim(r.1@),
                "method"@,
                method@,
            ),
    {
        let id: u64 = self.next_id;
        self.next_id = id + 1;
        let mut members: Vec<(String, JsonValue)> = Vec::new();
        push_nested(&mut members, "id", JsonValue::Scalar(Scalar::Text(text::decimal_text(id))));
        push_nested(
            &mut members,
            "method",
            JsonValue::Scalar(Scalar::Text(method.to_owned())),
        );
        push_nested(&mut members, "args", args);
        let ghost all = request_members(id, method@, args@);
        proof {
            assert(json::nested_view(members@) =~= all);
        }
        let body: String = json::object_text(members);
        let mut line: String = body.clone();
        line.append("\n");
        proof {
            reveal_strlit("\n");
            reveal_strlit("id");
            reveal_strlit("method");
            reveal_strlit("args");
            assert(line@ =~= body@.push('\n'));
            assert(line@.drop_last() =~= body@);
            lemma_trim_line(body@);
            assert("id"@.len() == 2 && "method"@.len() == 6 && "args"@.len() == 4);
            json::lemma_short_name_is_plain("id"@);
            json::lemma_short_name_is_plain("method"@);
            json::lemma_short_name_is_plain("args"@);
            assert(json::is_text_member(all, 0, text::decimal(id as nat)));
            assert(json::is_text_member(all, 1, method@));
        }
        (id, line)
    }
}

proof fn lemma_trim_line(body: Seq<char>)
    requires
        body.len() > 0,
        !text::is_whitespace(body[0]),
        !text::is_whitespace(body.last()),
    ensures
        text::trim(body.push('\n')) == body,
{
    let line = body.push('\n');
    assert(line[0] == body[0]);
    assert(text::trim_start(line) == line);
    assert(line.drop_last() =~= body);
    reveal_with_fuel(text::trim_end, 2);
}

/// What to do after reading from the process.
#[derive(Debug, Clone, PartialEq, Eq)]
pub enum ReplyStep {
    /// Not the reply: read on.
    Continue,
    Failed(SkyFault),
    Done(SkyCallResult),
}

/// What a [`ReplyStep`] stands for.
pub enum ReplyView {
    Continue,
    /// Failed with this message.
    Failed(Seq<char>),
    /// Done, with this text and screenshot.
    Done(Seq<char>, Option<Seq<char>>),
}

impl View for ReplyStep {
    type V = ReplyView;

    open spec fn view(&self) -> ReplyView {
        match self {
            ReplyStep::Continue => ReplyView::Continue,
            ReplyStep::Failed(fault) => ReplyView::Failed(fault_text(*fault)),
            ReplyStep::Done(result) => ReplyView::Done(
                result.text@,
                model::text_view(result.screenshot_url),
            ),
        }
    }
}

/// Where a reply holds what is read from it.
pub open spec fn reply_pointers() -> Seq<Seq<char>> {
    seq!["/id"@, "/ok"@, "/error"@, "/result/text"@, "/result/screenshot"@]
}

/// The text of a member, where it is one.
pub open spec fn member_text(member: Option<MemberView>) -> Option<Seq<char>> {
    match member {
        Some(MemberView::Text(text)) => Some(text),
        _ => None,
    }
}

/// A text, or another one where there is none.
pub open spec fn text_or(text: Option<Seq<char>>, other: Seq<char>) -> Seq<char> {
    match text {
        Some(text) => text,
        None => other,
    }
}

/// What the members of a reply to request `id` say: a reply to another request
/// is passed over; one that is not `ok` is an error.
pub open spec fn reply_of_members(id: u64, members: Seq<Option<MemberView>>) -> ReplyView {
    if member_text(members[0]) != Some(text::decimal(id as nat)) {
        ReplyView::Continue
    } else if members[1] != Some(MemberView::Bool(true)) {
        ReplyView::Failed(text_or(member_text(members[2]), "sky rpc failed"@))
    } else {
        ReplyView::Done(text_or(member_text(members[3]), "ok"@), member_text(members[4]))
    }
}

/// What a line read while waiting for the reply to request `id` says, given
/// what stands in it at the [`reply_pointers`]. An empty line means that
/// nothing more will come; a blank one is passed over.
pub open spec fn reply_of_line(
    id: u64,
    line: Seq<char>,
    members: Result<Seq<Option<MemberView>>, Seq<char>>,
) -> ReplyView {
    if line.len() == 0 {
        ReplyView::Failed("sky rpc closed"@)
    } else if text::trim(line).len() == 0 {
        ReplyView::Continue
    } else {
        match members {
            Ok(members) => reply_of_members(id, members),
            Err(error) => ReplyView::Failed("sky rpc invalid json: "@ + error),
        }
    }
}

fn text_of(member: &Option<Member>) -> (r: Option<String>)
    ensures
        model::text_view(r) == member_text(
            match *member {
                Some(member) => Some(member@),
                None => None,
            },
        ),
{
    match member {
        Some(Member::Text(text)) => Some(text.clone()),
        Some(Member::Bool(_)) => None,
        Some(Member::Other) => None,
        None => None,
    }
}

/// What the members of a reply to request `id` say: those at `/id`, `/ok`,
/// `/error`, `/result/text` and `/result/screenshot`, in this order.
pub fn read_reply(id: u64, members: &Vec<Option<Member>>) -> (r: ReplyStep)
    requires
        members@.len() == 5,
    ensures
        r@ == reply_of_members(id, json::found_view(members@)),
{
    let expected: String = text::decimal_text(id);
    match text_of(&members[0]) {
        None => {
            return ReplyStep::Continue;
        },
        Some(received) => {
            if !text::same_text(received.as_str(), expected.as_str()) {
                return ReplyStep::Continue;
            }
        },
    }
    let ok: bool = match &members[1] {
        Some(Member::Bool(ok)) => *ok,
        Some(Member::Text(_)) => false,
        Some(Member::Other) => false,
        None => false,
    };
    if !ok {
        let error: String = match text_of(&members[2]) {
            Some(error) => error,
            None => "sky rpc failed".to_owned(),
        };
        return ReplyStep::Failed(SkyFault::Failed(error));
    }
    let text: String = match text_of(&members[3]) {
        Some(text) => text,
        None => "ok".to_owned(),
    };
    let screenshot_url: Option<String> = text_of(&members[4]);
    ReplyStep::Done(SkyCallResult { text, screenshot_url })
}

/// What a line read while waiting for the reply to request `id` says.
pub fn reply_line(id: u64, line: &str) -> (r: ReplyStep)
    ensures
        r@ == reply_of_line(
            id,
            line@,
            json::json_members(text::trim(line@), reply_pointers()),
        ),
{
    if line.is_empty() {
        return ReplyStep::Failed(SkyFault::Closed);
    }
    let trimmed: &str = text::trim_text(line);
    if trimmed.is_empty() {
        return ReplyStep::Continue;
    }
    let pointers: Vec<&str> = vec!["/id", "/ok", "/error", "/result/text", "/result/screenshot"];
    proof {
        assert(json::texts_view(pointers@) =~= reply_pointers());
    }
    match json::read_members(trimmed, &pointers) {
        Ok(members) => read_reply(id, &members),
        Err(error) => ReplyStep::Failed(SkyFault::InvalidJson(error)),
    }
}

/// A reply that bears another request's number never ends the wait, whatever
/// else it holds.
pub proof fn law_other_replies_are_passed_over(
    id: u64,
    other: u64,
    members: Seq<Option<MemberView>>,
)
    requires
        other != id,
        members[0] == Some(MemberView::Text(text::decimal(other as nat))),
    ensures
        reply_of_members(id, members) == ReplyView::Continue,
{
    text::law_decimal_is_injective(id as nat, other as nat);
}

/// A reply that bears the request's own number always ends the wait.
pub proof fn law_own_reply_ends_the_wait(id: u64, members: Seq<Option<MemberView>>)
    requires
        members[0] == Some(MemberView::Text(text::decimal(id as nat))),
    ensures
        !(reply_of_members(id, members) is Continue),
        (reply_of_members(id, members) is Done) == (members[1] == Some(MemberView::Bool(true))),
{
}

/// Requests to one process bear different numbers.
pub proof fn law_request_ids_differ(id: u64, later: u64)
    requires
        id < later,
    ensures
        text::decimal(id as nat) != text::decimal(later as nat),
{
    text::law_decimal_is_injective(id as nat, later as nat);
}

/// A reply to the request that is `ok` gives the text and the screenshot that it
/// holds, each whether or not the other is there. A reply without a text says
/// `ok`, and one without a screenshot has none.
pub proof fn law_own_reply_gives_its_text_and_screenshot(
    id: u64,
    members: Seq<Option<MemberView>>,
)
    requires
        members[0] == Some(MemberView::Text(text::decimal(id as nat))),
        members[1] == Some(MemberView::Bool(true)),
    ensures
        ({
            let reply = reply_of_members(id, members);
            &&& reply is Done
            &&& members[3] matches Some(MemberView::Text(t)) ==> reply->Done_0 == t
            &&& (members[3] is None || !(members[3]->0 is Text)) ==> reply->Done_0 == "ok"@
            &&& members[4] matches Some(MemberView::Text(url)) ==> reply->Done_1 == Some(url)
            &&& (members[4] is None || !(members[4]->0 is Text)) ==> reply->Done_1 is None
        }),
{
}

/// A reply to the request that is not `ok`, in so many words, fails with the error
/// that it holds, whatever else it holds, and with a general message where it
/// holds none.
pub proof fn law_own_failure_gives_its_error(id: u64, members: Seq<Option<MemberView>>)
    requires
        members[0] == Some(MemberView::Text(text::decimal(id as nat))),
        members[1] != Some(MemberView::Bool(true)),
    ensures
        members[2] matches Some(MemberView::Text(error)) ==> reply_of_members(id, members)
            == ReplyView::Failed(error),
        (members[2] is None || !(members[2]->0 is Text)) ==> reply_of_members(id, members)
            == ReplyView::Failed("sky rpc failed"@),
{
}

/// A reply whose number is not that of the request, or is not a text, is passed
/// over, whatever it says.
pub proof fn law_reply_without_the_number_is_passed_over(
    id: u64,
    members: Seq<Option<MemberView>>,
)
    requires
        members[0] != Some(MemberView::Text(text::decimal(id as nat))),
    ensures
        reply_of_members(id, members) == ReplyView::Continue,
{
}

/// The end of the output fails the call. A line of whitespace is passed over. Any
/// other line is read as a reply where it is JSON, and fails the call where it is
/// not.
pub proof fn law_lines_are_read_one_by_one(
    id: u64,
    line: Seq<char>,
    members: Seq<Option<MemberView>>,
    error: Seq<char>,
)
    ensures
        line.len() == 0 ==> reply_of_line(
            id,
            line,
            Ok::<Seq<Option<MemberView>>, Seq<char>>(members),
        ) == ReplyView::Failed("sky rpc closed"@),
        line.len() > 0 && (forall|i: int|
            0 <= i < line.len() ==> text::is_whitespace(#[trigger] line[i])) ==> reply_of_line(
            id,
            line,
            Err::<Seq<Option<MemberView>>, Seq<char>>(error),
        ) == ReplyView::Continue,
        (exists|i: int| 0 <= i < line.len() && !text::is_whitespace(#[trigger] line[i])) ==> {
            &&& reply_of_line(id, line, Ok::<Seq<Option<MemberView>>, Seq<char>>(members))
                == reply_of_members(id, members)
            &&& reply_of_line(id, line, Err::<Seq<Option<MemberView>>, Seq<char>>(error))
                == ReplyView::Failed("sky rpc invalid json: "@ + error)
        },
{
    text::law_only_whitespace_trims_to_nothing(line);
}

/// A wait as long as the setting says, wherever that is a whole number of seconds
/// from one up; three minutes where there is no setting, or it is zero, too large
/// or no number.
pub proof fn law_timeout_follows_the_setting(n: nat, other: Seq<char>)
    ensures
        timeout(None) == 180,
        text::parse_unsigned(other, u64::MAX as nat) matches Some(v) ==> timeout(Some(other)) == (
        if v > 0 {
            v
        } else {
            180
        }),
        1 <= n <= u64::MAX ==> timeout(Some(text::decimal(n))) == n,
        n == 0 || n > u64::MAX ==> timeout(Some(text::decimal(n))) == 180,
        other.len() == 0 || (exists|i: int|
            1 <= i < other.len() && !('0' <= #[trigger] other[i] && other[i] <= '9')) || (other[0]
            != '+' && !('0' <= other[0] && other[0] <= '9')) ==> timeout(Some(other)) == 180,
{
    text::law_decimal_reads_back(n, u64::MAX as nat);
    text::law_numbers_are_read_digit_by_digit(other, 0, u64::MAX as nat);
}

/// A request has its number as a text, its method and its arguments, in this
/// order and under these names, and its line is that object's text and a newline.
pub proof fn law_request_carries_number_method_and_arguments(
    id: u64,
    method: Seq<char>,
    args: JsonView,
)
    ensures
        ({
            let members = request_members(id, method, args);
            &&& members.len() == 3
            &&& members[0].0 == "id"@ && members[0].1 == JsonView::Scalar(
                ScalarView::Text(text::decimal(id as nat)),
            )
            &&& members[1].0 == "method"@ && members[1].1 == JsonView::Scalar(
                ScalarView::Text(method),
            )
            &&& members[2] == ("args"@, args)
            &&& request_line(id, method, args) == json::json_object_text(members) + seq!['\n']
        }),
{
}

/// A reply's number, verdict and error are read at its top, its text and
/// screenshot in its result.
pub proof fn law_reply_is_read_at_these_places()
    ensures
        reply_pointers().len() == 5,
        reply_pointers()[0] == "/id"@,
        reply_pointers()[1] == "/ok"@,
        reply_pointers()[2] == "/error"@,
        reply_pointers()[3] == "/result/text"@,
        reply_pointers()[4] == "/result/screenshot"@,
{
}

/// What a step stands for shows its text, its screenshot and its message.
pub proof fn law_reply_view_shows_everything(result: SkyCallResult, fault: SkyFault)
    ensures
        ReplyStep::Continue@ == ReplyView::Continue,
        ReplyStep::Failed(fault)@ == ReplyView::Failed(fault_text(fault)),
        ReplyStep::Done(result)@ is Done,
        ReplyStep::Done(result)@->Done_0 == result.text@,
        ReplyStep::Done(result)@->Done_1 is Some == result.screenshot_url is Some,
        result.screenshot_url is Some ==> ReplyStep::Done(result)@->Done_1->0
            == result.screenshot_url->0@,
{
}

/// A message ends in what the system or the process gave as the cause, and a
/// timeout names the method and the seconds.
pub proof fn law_faults_name_their_cause(bin: String, error: String, method: String, secs: u64)
    ensures
        fault_text(SkyFault::Failed(error)) == error@,
        fault_text(SkyFault::Closed) == "sky rpc closed"@,
        fault_text(SkyFault::StdinMissing) == "sky rpc stdin missing"@,
        fault_text(SkyFault::StdoutMissing) == "sky rpc stdout missing"@,
        fault_text(SkyFault::Write(error)) == "sky rpc write failed: "@ + error@,
        fault_text(SkyFault::Flush(error)) == "sky rpc flush failed: "@ + error@,
        fault_text(SkyFault::Read(error)) == "sky rpc read failed: "@ + error@,
        fault_text(SkyFault::InvalidJson(error)) == "sky rpc invalid json: "@ + error@,
        fault_text(SkyFault::Spawn { bin, error }) == "failed to spawn "@ + bin@ + " rpc: "@
            + error@,
        fault_text(SkyFault::TimedOut { method, secs }) == "sky "@ + method@ + " timed out after "@
            + text::decimal(secs as nat) + "s"@,
{
}

} // verus!
