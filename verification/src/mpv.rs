//! Commands for the player, and the lines that carry them.

use crate::text::{decimal, number, signed, signed_number, texts, with_between};
use vstd::prelude::*;
use vstd::string::*;

verus! {

/// What a polled property is asked under, so that the answer finds its way back.
pub const REQ_TIME_POS: u64 = 1;

pub const REQ_DURATION: u64 = 2;

pub const REQ_PAUSE: u64 = 3;

pub const REQ_VOLUME: u64 = 4;

pub const REQ_SID: u64 = 5;

pub const REQ_SUB_LANG: u64 = 6;

pub const REQ_CURRENT_VO: u64 = 7;

pub const REQ_SPEED: u64 = 8;

/// One argument of a command. Fractions are counted in thousandths.
#[derive(Debug, PartialEq, Eq)]
pub enum MpvArg {
    Text(String),
    Number(i64),
    Thousandths(u64),
    Flag(bool),
}

/// What an argument holds.
pub ghost enum ArgView {
    Text(Seq<char>),
    Number(i64),
    Thousandths(u64),
    Flag(bool),
}

impl View for MpvArg {
    type V = ArgView;

    open spec fn view(&self) -> ArgView {
        match *self {
            MpvArg::Text(text) => ArgView::Text(text@),
            MpvArg::Number(n) => ArgView::Number(n),
            MpvArg::Thousandths(n) => ArgView::Thousandths(n),
            MpvArg::Flag(on) => ArgView::Flag(on),
        }
    }
}

/// A command for the player.
#[derive(Debug, PartialEq, Eq)]
pub struct MpvCommand {
    pub args: Vec<MpvArg>,
    /// The number that the player's answer repeats.
    pub request_id: Option<u64>,
}

/// What a list of arguments holds.
pub open spec fn arg_views(args: Seq<MpvArg>) -> Seq<ArgView> {
    args.map_values(|arg: MpvArg| arg@)
}

impl View for MpvCommand {
    type V = Seq<ArgView>;

    open spec fn view(&self) -> Seq<ArgView> {
        arg_views(self.args@)
    }
}

/// What a list of commands holds.
pub open spec fn command_views(commands: Seq<MpvCommand>) -> Seq<Seq<ArgView>> {
    commands.map_values(|command: MpvCommand| command@)
}

/// None of these commands asks for an answer.
pub open spec fn unasked(commands: Seq<MpvCommand>) -> bool {
    forall|i: int| 0 <= i < commands.len() ==> (#[trigger] commands[i]).request_id is None
}

/// The words of a command without numbers.
pub open spec fn spoken(words: Seq<Seq<char>>) -> Seq<ArgView> {
    words.map_values(|word: Seq<char>| ArgView::Text(word))
}

/// A text as `serde_json` writes it: in quotes, with what JSON wants escaped.
pub uninterp spec fn json_text(text: Seq<char>) -> Seq<char>;

/// `to_string` of a `serde_json::Value` that holds the text. How JSON escapes a
/// text is not restated here.
#[verifier::external_body]
pub(crate) fn quoted(text: &str) -> (r: String)
    ensures
        r@ == json_text(text@),
{
    serde_json::Value::String(text.to_owned()).to_string()
}

/// The digits of a fraction of a thousand, at least one, without zeros at the end.
pub open spec fn fraction_digits(n: nat) -> Seq<char> {
    if n % 100 == 0 {
        decimal(n / 100)
    } else if n % 10 == 0 {
        decimal(n / 100) + decimal(n / 10 % 10)
    } else {
        decimal(n / 100) + decimal(n / 10 % 10) + decimal(n % 10)
    }
}

/// A number of thousandths as a decimal fraction with at least one digit behind
/// the point.
pub open spec fn fraction_text(n: nat) -> Seq<char> {
    decimal(n / 1000) + "."@ + fraction_digits(n % 1000)
}

/// Writes a number of thousandths as a decimal fraction.
pub fn fraction(n: u64) -> (r: String)
    ensures
        r@ == fraction_text(n as nat),
{
    let part: u64 = n % 1000;
    let mut out = number(n / 1000);
    out.append(".");
    out.append(number(part / 100).as_str());
    if part % 100 != 0 {
        out.append(number(part / 10 % 10).as_str());
        if part % 10 != 0 {
            out.append(number(part % 10).as_str());
        }
    }
    assert(out@ =~= fraction_text(n as nat));
    out
}

pub open spec fn flag_text(on: bool) -> Seq<char> {
    if on {
        "true"@
    } else {
        "false"@
    }
}

/// An argument in JSON.
pub open spec fn json_arg(arg: ArgView) -> Seq<char> {
    match arg {
        ArgView::Text(text) => json_text(text),
        ArgView::Number(n) => signed(n as int),
        ArgView::Thousandths(n) => fraction_text(n as nat),
        ArgView::Flag(on) => flag_text(on),
    }
}

/// The line for a command, given each of its arguments in JSON.
pub open spec fn command_line(args: Seq<Seq<char>>, request_id: Option<u64>) -> Seq<char> {
    let list = "{\"command\":["@ + with_between(args, ","@);
    match request_id {
        Some(id) => list + "],\"request_id\":"@ + decimal(id as nat) + "}\n"@,
        None => list + "]}\n"@,
    }
}

/// Puts arguments that are written in JSON already into the line for their command.
pub fn framed(args: &Vec<String>, request_id: Option<u64>) -> (r: String)
    ensures
        r@ == command_line(texts(args@), request_id),
{
    let mut out = "{\"command\":[".to_owned();
    out.append(crate::text::join(args, ",").as_str());
    match request_id {
        Some(id) => {
            out.append("],\"request_id\":");
            out.append(number(id).as_str());
            out.append("}\n");
        },
        None => {
            out.append("]}\n");
        },
    }
    out
}

impl MpvArg {
    fn to_json(&self) -> (r: String)
        ensures
            r@ == json_arg(self@),
    {
        match self {
            MpvArg::Text(text) => quoted(text.as_str()),
            MpvArg::Number(n) => signed_number(*n),
            MpvArg::Thousandths(n) => fraction(*n),
            MpvArg::Flag(on) => if *on {
                "true".to_owned()
            } else {
                "false".to_owned()
            },
        }
    }
}

impl MpvCommand {
    /// The line that the player reads as this command.
    pub fn to_line(&self) -> (r: String)
        ensures
            r@ == command_line(self@.map_values(|arg: ArgView| json_arg(arg)), self.request_id),
    {
        let mut args: Vec<String> = Vec::new();
        for i in 0..self.args.len()
            invariant
                texts(args@) == self@.map_values(|arg: ArgView| json_arg(arg)).take(i as int),
        {
            let ghost before = args@;
            args.push(self.args[i].to_json());
            proof {
                assert(texts(args@) =~= texts(before).push(json_arg(self@[i as int])));
                assert(texts(args@) =~= self@.map_values(|arg: ArgView| json_arg(arg)).take(
                    i + 1,
                ));
            }
        }
        assert(self@.map_values(|arg: ArgView| json_arg(arg)).take(self.args@.len() as int)
            =~= self@.map_values(|arg: ArgView| json_arg(arg)));
        framed(&args, self.request_id)
    }
}

/// A command of one word.
fn said1(a: &str) -> (r: MpvCommand)
    ensures
        r@ == seq![ArgView::Text(a@)],
        r.request_id is None,
{
    let mut args: Vec<MpvArg> = Vec::new();
    args.push(MpvArg::Text(a.to_owned()));
    let r = MpvCommand { args, request_id: None };
    assert(r@ =~= seq![ArgView::Text(a@)]);
    r
}

/// A command of two words and an argument.
fn said3(a: &str, b: &str, c: MpvArg) -> (r: MpvCommand)
    ensures
        r@ == seq![ArgView::Text(a@), ArgView::Text(b@), c@],
        r.request_id is None,
{
    let ghost last = c@;
    let mut args: Vec<MpvArg> = Vec::new();
    args.push(MpvArg::Text(a.to_owned()));
    args.push(MpvArg::Text(b.to_owned()));
    args.push(c);
    let r = MpvCommand { args, request_id: None };
    assert(r@ =~= seq![ArgView::Text(a@), ArgView::Text(b@), last]);
    r
}

/// The command that sets a property.
pub open spec fn setting(name: Seq<char>, value: ArgView) -> Seq<ArgView> {
    seq![ArgView::Text("set_property"@), ArgView::Text(name), value]
}

pub fn set_property(name: &str, value: MpvArg) -> (r: MpvCommand)
    ensures
        r@ == setting(name@, value@),
        r.request_id is None,
{
    said3("set_property", name, value)
}

/// Sets an option of the output that draws with the terminal's graphics.
pub fn set_kitty_option(key: &str, value: MpvArg) -> (r: MpvCommand)
    ensures
        r@ == setting("vo-kitty-"@ + key@, value@),
        r.request_id is None,
{
    let mut name = "vo-kitty-".to_owned();
    name.append(key);
    set_property(name.as_str(), value)
}

/// Sets an option of the output that draws with characters.
pub fn set_tct_option(key: &str, value: MpvArg) -> (r: MpvCommand)
    ensures
        r@ == setting("vo-tct-"@ + key@, value@),
        r.request_id is None,
{
    let mut name = "vo-tct-".to_owned();
    name.append(key);
    set_property(name.as_str(), value)
}

/// Adds a video filter.
pub fn vf_add(filter: &str) -> (r: MpvCommand)
    ensures
        r@ == spoken(seq!["vf"@, "add"@, filter@]),
        r.request_id is None,
{
    let r = said3("vf", "add", MpvArg::Text(filter.to_owned()));
    assert(r@ =~= spoken(seq!["vf"@, "add"@, filter@]));
    r
}

/// Takes the video filter with that label away.
pub fn vf_remove(label: &str) -> (r: MpvCommand)
    ensures
        r@ == spoken(seq!["vf"@, "remove"@, "@"@ + label@]),
        r.request_id is None,
{
    let mut name = "@".to_owned();
    name.append(label);
    let r = said3("vf", "remove", MpvArg::Text(name));
    assert(r@ =~= spoken(seq!["vf"@, "remove"@, "@"@ + label@]));
    r
}

/// Asks the player to end.
pub fn quit() -> (r: MpvCommand)
    ensures
        r@ == spoken(seq!["quit"@]),
        r.request_id is None,
{
    let r = said1("quit");
    assert(r@ =~= spoken(seq!["quit"@]));
    r
}

/// A number of milliseconds in whole seconds, halves away from zero.
pub open spec fn rounded_seconds(millis: int) -> int {
    if millis < 0 {
        -((500 - millis) / 1000)
    } else {
        (millis + 500) / 1000
    }
}

/// Moves by a number of seconds.
pub open spec fn stepping(secs: i64) -> Seq<ArgView> {
    seq![ArgView::Text("seek"@), ArgView::Number(secs), ArgView::Text("relative"@)]
}

/// Moves to a place.
pub open spec fn jumping(millis: u64) -> Seq<ArgView> {
    seq![ArgView::Text("seek"@), ArgView::Thousandths(millis), ArgView::Text("absolute"@)]
}

/// Moves the player by a number of seconds.
pub fn seek(secs: i64) -> (r: MpvCommand)
    ensures
        r@ == stepping(secs),
        r.request_id is None,
{
    let mut args: Vec<MpvArg> = Vec::new();
    args.push(MpvArg::Text("seek".to_owned()));
    args.push(MpvArg::Number(secs));
    args.push(MpvArg::Text("relative".to_owned()));
    let r = MpvCommand { args, request_id: None };
    assert(r@ =~= stepping(secs));
    r
}

/// Moves the player to a place in milliseconds.
pub fn seek_absolute(millis: u64) -> (r: MpvCommand)
    ensures
        r@ == jumping(millis),
        r.request_id is None,
{
    let mut args: Vec<MpvArg> = Vec::new();
    args.push(MpvArg::Text("seek".to_owned()));
    args.push(MpvArg::Thousandths(millis));
    args.push(MpvArg::Text("absolute".to_owned()));
    let r = MpvCommand { args, request_id: None };
    assert(r@ =~= jumping(millis));
    r
}

/// The properties that are polled, each with what it is asked under.
pub open spec fn polled_properties() -> Seq<(Seq<char>, u64)> {
    seq![
        ("time-pos"@, REQ_TIME_POS),
        ("duration"@, REQ_DURATION),
        ("pause"@, REQ_PAUSE),
        ("volume"@, REQ_VOLUME),
        ("sid"@, REQ_SID),
        ("current-tracks/sub/lang"@, REQ_SUB_LANG),
        ("current-vo"@, REQ_CURRENT_VO),
        ("speed"@, REQ_SPEED),
    ]
}

/// A command asks for a property.
pub open spec fn asks_for(command: MpvCommand, property: (Seq<char>, u64)) -> bool {
    &&& command@ == spoken(seq!["get_property"@, property.0])
    &&& command.request_id == Some(property.1)
}

/// The commands of a poll.
pub open spec fn is_poll(commands: Seq<MpvCommand>) -> bool {
    &&& commands.len() == polled_properties().len()
    &&& forall|i: int|
        0 <= i < commands.len() ==> asks_for(#[trigger] commands[i], polled_properties()[i])
}

fn get_property(name: &str, id: u64) -> (r: MpvCommand)
    ensures
        asks_for(r, (name@, id)),
{
    let mut args: Vec<MpvArg> = Vec::new();
    args.push(MpvArg::Text("get_property".to_owned()));
    args.push(MpvArg::Text(name.to_owned()));
    let r = MpvCommand { args, request_id: Some(id) };
    assert(r@ =~= spoken(seq!["get_property"@, name@]));
    r
}

/// Asks for everything that is shown while something plays.
pub fn poll_commands() -> (r: Vec<MpvCommand>)
    ensures
        is_poll(r@),
{
    let mut out: Vec<MpvCommand> = Vec::new();
    out.push(get_property("time-pos", REQ_TIME_POS));
    out.push(get_property("duration", REQ_DURATION));
    out.push(get_property("pause", REQ_PAUSE));
    out.push(get_property("volume", REQ_VOLUME));
    out.push(get_property("sid", REQ_SID));
    out.push(get_property("current-tracks/sub/lang", REQ_SUB_LANG));
    out.push(get_property("current-vo", REQ_CURRENT_VO));
    out.push(get_property("speed", REQ_SPEED));
    out
}

/// What the player reports of a property. Numbers are counted in thousandths.
#[derive(Debug, PartialEq, Eq)]
pub enum Reported {
    Number(i64),
    Flag(bool),
    Text(String),
    Other,
}

/// The number of a report.
pub open spec fn number_in(data: Option<Reported>) -> Option<i64> {
    match data {
        Some(Reported::Number(n)) => Some(n),
        _ => None,
    }
}

pub open spec fn flag_in(data: Option<Reported>) -> Option<bool> {
    match data {
        Some(Reported::Flag(on)) => Some(on),
        _ => None,
    }
}

pub open spec fn text_in(data: Option<Reported>) -> Option<String> {
    match data {
        Some(Reported::Text(text)) => Some(text),
        _ => None,
    }
}

/// A seek by a number of seconds and one to a place are told apart, and each hands over
/// what was asked for.
pub proof fn law_seeks_are_told_apart(secs: i64, millis: u64)
    ensures
        stepping(secs).len() == 3,
        stepping(secs)[0] == ArgView::Text("seek"@),
        stepping(secs)[1] == ArgView::Number(secs),
        stepping(secs)[2] == ArgView::Text("relative"@),
        jumping(millis).len() == 3,
        jumping(millis)[0] == ArgView::Text("seek"@),
        jumping(millis)[1] == ArgView::Thousandths(millis),
        jumping(millis)[2] == ArgView::Text("absolute"@),
{
}

/// A property is set by its name, to the value that was asked for.
pub proof fn law_property_is_set_by_name(name: Seq<char>, value: ArgView)
    ensures
        setting(name, value).len() == 3,
        setting(name, value)[0] == ArgView::Text("set_property"@),
        setting(name, value)[1] == ArgView::Text(name),
        setting(name, value)[2] == value,
{
}

/// A time is rounded to the nearest second, a half away from zero, and back as forth.
pub proof fn law_seconds_are_rounded(millis: int)
    ensures
        -500 <= rounded_seconds(millis) * 1000 - millis <= 500,
        rounded_seconds(-millis) == -rounded_seconds(millis),
        millis % 1000 == 0 ==> rounded_seconds(millis) * 1000 == millis,
        millis > 0 && millis % 1000 == 500 ==> rounded_seconds(millis) * 1000 == millis + 500,
{
}

/// A poll asks for each property once, each under its own number.
pub proof fn law_poll_asks_for_everything(commands: Seq<MpvCommand>)
    requires
        is_poll(commands),
    ensures
        commands.len() == 8,
        forall|i: int|
            0 <= i < 8 ==> (#[trigger] commands[i]).request_id == Some((i + 1) as u64),
        commands[0]@ == spoken(seq!["get_property"@, "time-pos"@]),
        commands[1]@ == spoken(seq!["get_property"@, "duration"@]),
        commands[2]@ == spoken(seq!["get_property"@, "pause"@]),
        commands[3]@ == spoken(seq!["get_property"@, "volume"@]),
        commands[4]@ == spoken(seq!["get_property"@, "sid"@]),
        commands[5]@ == spoken(seq!["get_property"@, "current-tracks/sub/lang"@]),
        commands[6]@ == spoken(seq!["get_property"@, "current-vo"@]),
        commands[7]@ == spoken(seq!["get_property"@, "speed"@]),
{
    assert(asks_for(commands[0], polled_properties()[0]));
    assert(asks_for(commands[1], polled_properties()[1]));
    assert(asks_for(commands[2], polled_properties()[2]));
    assert(asks_for(commands[3], polled_properties()[3]));
    assert(asks_for(commands[4], polled_properties()[4]));
    assert(asks_for(commands[5], polled_properties()[5]));
    assert(asks_for(commands[6], polled_properties()[6]));
    assert(asks_for(commands[7], polled_properties()[7]));
}

/// The words of a command are its arguments, in their order.
pub proof fn law_words_are_arguments(words: Seq<Seq<char>>, i: int)
    requires
        0 <= i < words.len(),
    ensures
        spoken(words).len() == words.len(),
        spoken(words)[i] == ArgView::Text(words[i]),
{
}

/// A report is taken as what it is, and as nothing else.
pub proof fn law_reports_have_one_kind(n: i64, on: bool, text: String)
    ensures
        number_in(Some(Reported::Number(n))) == Some(n),
        flag_in(Some(Reported::Flag(on))) == Some(on),
        text_in(Some(Reported::Text(text))) == Some(text),
        number_in(Some(Reported::Flag(on))) is None && number_in(Some(Reported::Text(text))) is None,
        flag_in(Some(Reported::Number(n))) is None && flag_in(Some(Reported::Text(text))) is None,
        text_in(Some(Reported::Number(n))) is None && text_in(Some(Reported::Flag(on))) is None,
        number_in(None) is None && flag_in(None) is None && text_in(None) is None,
{
}

/// A fraction is written with its whole part before the point, and behind it the digits of
/// its thousandths down to the last that is not zero.
pub proof fn law_fraction_by_place(whole: nat, tenths: nat, hundredths: nat, thousandths: nat)
    requires
        tenths < 10,
        hundredths < 10,
        thousandths < 10,
    ensures
        ({
            let text = fraction_text(
                whole * 1000 + tenths * 100 + hundredths * 10 + thousandths,
            );
            let head = decimal(whole) + "."@ + decimal(tenths);
            &&& thousandths == 0 && hundredths == 0 ==> text == head
            &&& thousandths == 0 && hundredths > 0 ==> text == head + decimal(hundredths)
            &&& thousandths > 0 ==> text == head + decimal(hundredths) + decimal(thousandths)
        }),
{
    let n = whole * 1000 + tenths * 100 + hundredths * 10 + thousandths;
    assert(n / 1000 == whole);
    let part = n % 1000;
    assert(part == tenths * 100 + hundredths * 10 + thousandths);
    assert(part / 100 == tenths);
    assert(part / 10 % 10 == hundredths);
    assert(part % 10 == thousandths);
    let text = fraction_text(n);
    let head = decimal(whole) + "."@ + decimal(tenths);
    if thousandths == 0 && hundredths == 0 {
        assert(text =~= head);
    } else if thousandths == 0 {
        assert(text =~= head + decimal(hundredths));
    } else {
        assert(text =~= head + decimal(hundredths) + decimal(thousandths));
    }
}

/// A command is one line with its arguments in their order; its number stands behind them
/// where it has one.
pub proof fn law_command_is_one_line(args: Seq<Seq<char>>, id: u64)
    ensures
        command_line(args, None) == "{\"command\":["@ + with_between(args, ","@) + "]}\n"@,
        command_line(args, Some(id)) == "{\"command\":["@ + with_between(args, ","@)
            + "],\"request_id\":"@ + decimal(id as nat) + "}\n"@,
        command_line(args, None).last() == '\n',
        command_line(args, Some(id)).last() == '\n',
{
    reveal_strlit("]}\n");
    reveal_strlit("}\n");
}

/// An argument is written by its kind.
pub proof fn law_arguments_are_written_by_kind(n: i64, millis: u64, on: bool, text: Seq<char>)
    ensures
        json_arg(ArgView::Number(n)) == signed(n as int),
        json_arg(ArgView::Thousandths(millis)) == fraction_text(millis as nat),
        on ==> json_arg(ArgView::Flag(on)) == "true"@,
        !on ==> json_arg(ArgView::Flag(on)) == "false"@,
        json_arg(ArgView::Text(text)) == json_text(text),
{
}

} // verus!
