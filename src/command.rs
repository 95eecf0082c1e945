use vstd::prelude::*;
use vstd::string::*;

verus! {

/// One call of a platform's audio tool, within one of the three operations.
/// The stages of macOS go through the script interpreter `osascript`; those
/// of Linux through PulseAudio's control tool `pactl`.
#[derive(Clone, Copy, PartialEq, Eq, Structural, Debug)]
pub enum Stage {
    /// Ask for the output volume.
    MacReadVolume,
    /// Set the output volume to the percentage held.
    MacWriteVolume(u8),
    /// Ask whether the output is muted.
    MacReadMute,
    /// Mute the output (`true`) or unmute it (`false`).
    MacWriteMute(bool),
    /// Ask for the default sink's volume.
    PactlReadVolume,
    /// Set the default sink's volume to the percentage held.
    PactlWriteVolume(u8),
    /// Toggle the default sink's mute state.
    PactlToggleMute,
    /// Ask whether the default sink is muted.
    PactlReadMute,
}

/// A program to run and the arguments to hand it.
pub struct Invocation {
    pub program: String,
    pub args: Vec<String>,
}

pub struct InvocationModel {
    pub program: Seq<char>,
    pub args: Seq<Seq<char>>,
}

impl View for Invocation {
    type V = InvocationModel;

    open spec fn view(&self) -> InvocationModel {
        InvocationModel { program: self.program@, args: self.args@.map_values(|a: String| a@) }
    }
}

pub open spec fn digit_char(d: nat) -> char {
    if d == 0 {
        '0'
    } else if d == 1 {
        '1'
    } else if d == 2 {
        '2'
    } else if d == 3 {
        '3'
    } else if d == 4 {
        '4'
    } else if d == 5 {
        '5'
    } else if d == 6 {
        '6'
    } else if d == 7 {
        '7'
    } else if d == 8 {
        '8'
    } else {
        '9'
    }
}

/// The decimal writing of `n`, without leading zeros.
pub open spec fn decimal_chars(n: nat) -> Seq<char>
    decreases n,
{
    if n < 10 {
        seq![digit_char(n)]
    } else {
        decimal_chars(n / 10).push(digit_char(n % 10))
    }
}

fn digit_text(d: u8) -> (r: &'static str)
    requires
        d < 10,
    ensures
        r@ == seq![digit_char(d as nat)],
{
    proof {
        reveal_strlit("0");
        reveal_strlit("1");
        reveal_strlit("2");
        reveal_strlit("3");
        reveal_strlit("4");
        reveal_strlit("5");
        reveal_strlit("6");
        reveal_strlit("7");
        reveal_strlit("8");
        reveal_strlit("9");
    }
    if d == 0 {
        "0"
    } else if d == 1 {
        "1"
    } else if d == 2 {
        "2"
    } else if d == 3 {
        "3"
    } else if d == 4 {
        "4"
    } else if d == 5 {
        "5"
    } else if d == 6 {
        "6"
    } else if d == 7 {
        "7"
    } else if d == 8 {
        "8"
    } else {
        "9"
    }
}

/// Writes `n` in decimal.
pub fn decimal_text(n: u8) -> (r: String)
    ensures
        r@ == decimal_chars(n as nat),
{
    proof {
        reveal_with_fuel(decimal_chars, 3);
    }
    let ones = digit_text(n % 10);
    if n < 10 {
        String::from_str(ones)
    } else if n < 100 {
        let mut s = String::from_str(digit_text(n / 10));
        s.append(ones);
        assert(decimal_chars((n / 10) as nat) == seq![digit_char((n / 10) as nat)]);
        s
    } else {
        let mut s = String::from_str(digit_text(n / 100));
        s.append(digit_text((n / 10) % 10));
        s.append(ones);
        assert(decimal_chars((n / 100) as nat) == seq![digit_char((n / 100) as nat)]);
        assert((n / 10) as nat / 10 == (n / 100) as nat);
        s
    }
}

pub open spec fn osascript(script: Seq<char>) -> InvocationModel {
    InvocationModel { program: "osascript"@, args: seq!["-e"@, script] }
}

pub open spec fn pactl(args: Seq<Seq<char>>) -> InvocationModel {
    InvocationModel { program: "pactl"@, args }
}

/// The command line of each stage.
pub open spec fn command_spec(stage: Stage) -> InvocationModel {
    match stage {
        Stage::MacReadVolume => osascript("output volume of (get volume settings)"@),
        Stage::MacWriteVolume(v) => osascript(
            "set volume output volume "@ + decimal_chars(v as nat),
        ),
        Stage::MacReadMute => osascript("output muted of (get volume settings)"@),
        Stage::MacWriteMute(m) => osascript(
            if m {
                "set volume with output muted"@
            } else {
                "set volume with output unmuted"@
            },
        ),
        Stage::PactlReadVolume => pactl(seq!["get-sink-volume"@, "@DEFAULT_SINK@"@]),
        Stage::PactlWriteVolume(v) => pactl(
            seq!["set-sink-volume"@, "@DEFAULT_SINK@"@, decimal_chars(v as nat) + "%"@],
        ),
        Stage::PactlToggleMute => pactl(seq!["set-sink-mute"@, "@DEFAULT_SINK@"@, "toggle"@]),
        Stage::PactlReadMute => pactl(seq!["get-sink-mute"@, "@DEFAULT_SINK@"@]),
    }
}

fn run_osascript(script: String) -> (r: Invocation)
    ensures
        r@ == osascript(script@),
{
    let mut args: Vec<String> = Vec::new();
    args.push(String::from_str("-e"));
    args.push(script);
    let r = Invocation { program: String::from_str("osascript"), args };
    assert(r@.args =~= seq!["-e"@, script@]);
    r
}

fn run_pactl(verb: &str, last: Option<String>) -> (r: Invocation)
    ensures
        r@ == pactl(
            match last {
                Some(l) => seq![verb@, "@DEFAULT_SINK@"@, l@],
                None => seq![verb@, "@DEFAULT_SINK@"@],
            },
        ),
{
    let mut args: Vec<String> = Vec::new();
    args.push(String::from_str(verb));
    args.push(String::from_str("@DEFAULT_SINK@"));
    match last {
        Some(l) => {
            args.push(l);
            let r = Invocation { program: String::from_str("pactl"), args };
            assert(r@.args =~= seq![verb@, "@DEFAULT_SINK@"@, l@]);
            r
        },
        None => {
            let r = Invocation { program: String::from_str("pactl"), args };
            assert(r@.args =~= seq![verb@, "@DEFAULT_SINK@"@]);
            r
        },
    }
}

impl Stage {
    /// The command line that this stage runs.
    pub fn command(&self) -> (r: Invocation)
        ensures
            r@ == command_spec(*self),
    {
        match *self {
            Stage::MacReadVolume => run_osascript(
                String::from_str("output volume of (get volume settings)"),
            ),
            Stage::MacWriteVolume(v) => {
                let mut script = String::from_str("set volume output volume ");
                script.append(decimal_text(v).as_str());
                run_osascript(script)
            },
            Stage::MacReadMute => run_osascript(
                String::from_str("output muted of (get volume settings)"),
            ),
            Stage::MacWriteMute(m) => {
                if m {
                    run_osascript(String::from_str("set volume with output muted"))
                } else {
                    run_osascript(String::from_str("set volume with output unmuted"))
                }
            },
            Stage::PactlReadVolume => run_pactl("get-sink-volume", None),
            Stage::PactlWriteVolume(v) => {
                let mut level = decimal_text(v);
                level.append("%");
                run_pactl("set-sink-volume", Some(level))
            },
            Stage::PactlToggleMute => run_pactl("set-sink-mute", Some(String::from_str("toggle"))),
            Stage::PactlReadMute => run_pactl("get-sink-mute", None),
        }
    }
}

} // verus!
