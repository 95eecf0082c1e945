use vstd::prelude::*;
use vstd::utf8::{pop_first_scalar, valid_first_scalar, valid_utf8};

use crate::command::{command_spec, decimal_chars, osascript, pactl, Stage};
use crate::controller::{
    failed, get_volume_spec, next_spec, outcome_text_ok, set_volume_spec, toggle_mute_spec,
    ErrorKind, OutcomeModel, Platform, Reply, StepModel,
};
use crate::level::clamp_percent;
use crate::text::{
    all_digits, digits_value, first_percent_at, false_word, is_digit, is_space, mac_mute_answer, mac_volume,
    pactl_muted, pactl_volume, space_before, trim, trim_end, trim_start, true_word,
};

verus! {

/// The decimal writing of `n` as ASCII bytes, as a tool prints it.
pub open spec fn decimal_bytes(n: nat) -> Seq<u8>
    decreases n,
{
    if n < 10 {
        seq![(48 + n) as u8]
    } else {
        decimal_bytes(n / 10).push((48 + n % 10) as u8)
    }
}

proof fn lemma_decimal_bytes(n: nat)
    ensures
        decimal_bytes(n).len() > 0,
        all_digits(decimal_bytes(n)),
        digits_value(decimal_bytes(n)) == n,
    decreases n,
{
    let s = decimal_bytes(n);
    if n < 10 {
        assert(s.drop_last() =~= Seq::<u8>::empty());
        assert(digits_value(Seq::<u8>::empty()) == 0);
    } else {
        lemma_decimal_bytes(n / 10);
        let pre = decimal_bytes(n / 10);
        assert(s.drop_last() =~= pre);
        assert forall|i: int| 0 <= i < s.len() implies is_digit(#[trigger] s[i]) by {
            if i < pre.len() {
                assert(s[i] == pre[i]);
            }
        }
    }
}

/// Bytes that are all ASCII are well-formed UTF-8, so an ASCII answer of a
/// tool always decodes.
pub proof fn lemma_ascii_decodes(s: Seq<u8>)
    requires
        forall|i: int| 0 <= i < s.len() ==> #[trigger] s[i] < 128,
    ensures
        valid_utf8(s),
    decreases s.len(),
{
    if s.len() > 0 {
        let b = s[0];
        assert((b & 0x7f) as u32 <= 0x7f) by (bit_vector);
        assert(valid_first_scalar(s));
        let rest = pop_first_scalar(s);
        assert(rest =~= s.subrange(1, s.len() as int));
        assert forall|i: int| 0 <= i < rest.len() implies #[trigger] rest[i] < 128 by {
            assert(rest[i] == s[i + 1]);
        }
        lemma_ascii_decodes(rest);
    }
}

/// A percentage from 0 to 100 that a tool writes in decimal reads back as
/// exactly that percentage: as the whole answer of macOS's script
/// interpreter, and as a token between a space and `%` in PulseAudio's
/// report.
pub proof fn lemma_reported_percent_reads_exactly(p: nat)
    requires
        p <= 100,
    ensures
        mac_volume(decimal_bytes(p)) == Some(p),
        pactl_volume(seq![32u8] + decimal_bytes(p) + seq![37u8]) == Some(p),
{
    lemma_decimal_bytes(p);
    let d = decimal_bytes(p);
    assert(!is_space(d[0]));
    assert(trim_start(d) == d);
    assert(!is_space(d.last()));
    assert(trim_end(d) == d);
    let s = seq![32u8] + d + seq![37u8];
    let last = s.len() - 1;
    assert forall|k: int| 0 <= k < last implies s[k] != 37 && (k > 0 ==> !is_space(s[k])) by {
        if k > 0 {
            assert(s[k] == d[k - 1]);
            assert(is_digit(d[k - 1]));
        }
    }
    assert(first_percent_at(s, last));
    let c = choose|x: int| first_percent_at(s, x);
    assert(c == last) by {
        if c < last {
            assert(s[c] != 37);
        }
    }
    assert(space_before(s, 0, last));
    let q = choose|x: int| space_before(s, x, last);
    assert(q == 0) by {
        if q > 0 {
            assert(!is_space(s[q]));
        }
    }
    assert(s.subrange(1, last) =~= d);
}

/// Setting the volume holds the requested level to the range 0 to 100 before
/// the percentage is written into the command: a level above the range sets
/// 100, one below it sets 0.
pub proof fn lemma_set_volume_clamps_first(scaled: int)
    ensures
        0 <= clamp_percent(scaled) <= 100,
        scaled >= 100 ==> clamp_percent(scaled) == 100,
        scaled <= 0 ==> clamp_percent(scaled) == 0,
        set_volume_spec(Platform::MacOs, scaled) == StepModel::Run(
            Stage::MacWriteVolume(clamp_percent(scaled) as u8),
        ),
        set_volume_spec(Platform::Linux, scaled) == StepModel::Run(
            Stage::PactlWriteVolume(clamp_percent(scaled) as u8),
        ),
        command_spec(Stage::MacWriteVolume(clamp_percent(scaled) as u8)).args[1]
            == "set volume output volume "@ + decimal_chars(clamp_percent(scaled) as nat),
        command_spec(Stage::PactlWriteVolume(clamp_percent(scaled) as u8)).args[2]
            == decimal_chars(clamp_percent(scaled) as nat) + "%"@,
{
    assert(clamp_percent(scaled) as u8 as nat == clamp_percent(scaled) as nat);
}

/// Reading the volume on macOS: when the interpreter succeeds with text
/// that, trimmed, is a percentage p from 0 to 100 in decimal, the reading is
/// exactly p, and the query is the only command run.
pub proof fn lemma_mac_reading_is_exact(s: Seq<u8>, p: nat)
    requires
        valid_utf8(s),
        p <= 100,
        trim(s) == decimal_bytes(p),
    ensures
        get_volume_spec(Platform::MacOs) == StepModel::Run(Stage::MacReadVolume),
        next_spec(
            Stage::MacReadVolume,
            OutcomeModel::Exited(true, s),
            outcome_text_ok(OutcomeModel::Exited(true, s)),
        ) == StepModel::Finished(Reply::Volume(p as u8)),
{
    lemma_decimal_bytes(p);
}

/// Reading the volume on Linux: when the tool succeeds with text in which
/// the token between the last white space before the first `%` and that `%`
/// is a percentage p from 0 to 100 in decimal, the reading is exactly p,
/// whatever follows (a second channel's `%` is not looked at).
pub proof fn lemma_pactl_reading_is_exact(s: Seq<u8>, q: int, i: int, p: nat)
    requires
        valid_utf8(s),
        p <= 100,
        first_percent_at(s, i),
        space_before(s, q, i),
        s.subrange(q + 1, i) == decimal_bytes(p),
    ensures
        get_volume_spec(Platform::Linux) == StepModel::Run(Stage::PactlReadVolume),
        next_spec(
            Stage::PactlReadVolume,
            OutcomeModel::Exited(true, s),
            outcome_text_ok(OutcomeModel::Exited(true, s)),
        ) == StepModel::Finished(Reply::Volume(p as u8)),
{
    lemma_decimal_bytes(p);
    let c = choose|x: int| first_percent_at(s, x);
    assert(c == i) by {
        if c < i {
            assert(s[c] != 37);
        } else if c > i {
            assert(s[i] != 37);
        }
    }
    let d = choose|x: int| space_before(s, x, i);
    assert(d == q) by {
        if d < q {
            assert(!is_space(s[q]));
        } else if d > q {
            assert(!is_space(s[d]));
        }
    }
}

/// On macOS a toggle reads the mute state, then issues the command for the
/// opposite state, and once that command succeeds reports the opposite
/// state; an answer that is neither `true` nor `false` ends the toggle with
/// a parse error before anything is changed.
pub proof fn lemma_mac_toggle_inverts(answer: Seq<u8>, later: Seq<u8>, text_ok: bool)
    ensures
        toggle_mute_spec(Platform::MacOs) == StepModel::Run(Stage::MacReadMute),
        trim(answer) == true_word() ==> next_spec(
            Stage::MacReadMute,
            OutcomeModel::Exited(true, answer),
            true,
        ) == StepModel::Run(Stage::MacWriteMute(false)),
        trim(answer) == false_word() ==> next_spec(
            Stage::MacReadMute,
            OutcomeModel::Exited(true, answer),
            true,
        ) == StepModel::Run(Stage::MacWriteMute(true)),
        mac_mute_answer(answer) is None ==> next_spec(
            Stage::MacReadMute,
            OutcomeModel::Exited(true, answer),
            true,
        ) == failed(ErrorKind::Parse, Stage::MacReadMute),
        command_spec(Stage::MacWriteMute(false)) == osascript("set volume with output unmuted"@),
        command_spec(Stage::MacWriteMute(true)) == osascript("set volume with output muted"@),
        next_spec(Stage::MacWriteMute(false), OutcomeModel::Exited(true, later), text_ok)
            == StepModel::Finished(Reply::Muted(false)),
        next_spec(Stage::MacWriteMute(true), OutcomeModel::Exited(true, later), text_ok)
            == StepModel::Finished(Reply::Muted(true)),
{
    assert(true_word() != false_word()) by {
        assert(true_word().len() != false_word().len());
    }
}

/// On Linux a toggle issues the toggle command, then reads the state back;
/// the result is muted exactly when the read-back answer holds `yes`.
pub proof fn lemma_pactl_toggle_reads_back(toggled: Seq<u8>, answer: Seq<u8>, text_ok: bool)
    ensures
        toggle_mute_spec(Platform::Linux) == StepModel::Run(Stage::PactlToggleMute),
        command_spec(Stage::PactlToggleMute) == pactl(
            seq!["set-sink-mute"@, "@DEFAULT_SINK@"@, "toggle"@],
        ),
        next_spec(Stage::PactlToggleMute, OutcomeModel::Exited(true, toggled), text_ok)
            == StepModel::Run(Stage::PactlReadMute),
        next_spec(Stage::PactlReadMute, OutcomeModel::Exited(true, answer), true)
            == StepModel::Finished(Reply::Muted(pactl_muted(answer))),
        pactl_muted(answer) <==> exists|i: int|
            0 <= i && i + 3 <= answer.len() && #[trigger] answer.subrange(i, i + 3) == seq![
                121u8,
                101u8,
                115u8,
            ],
{
    if pactl_muted(answer) {
        let i = choose|i: int| #[trigger] crate::text::yes_at(answer, i);
        assert(answer.subrange(i, i + 3) =~= seq![121u8, 101u8, 115u8]);
    }
    if exists|i: int|
        0 <= i && i + 3 <= answer.len() && #[trigger] answer.subrange(i, i + 3) == seq![
            121u8,
            101u8,
            115u8,
        ] {
        let i = choose|i: int|
            0 <= i && i + 3 <= answer.len() && #[trigger] answer.subrange(i, i + 3) == seq![
                121u8,
                101u8,
                115u8,
            ];
        assert(answer.subrange(i, i + 3)[0] == answer[i]);
        assert(answer.subrange(i, i + 3)[1] == answer[i + 1]);
        assert(answer.subrange(i, i + 3)[2] == answer[i + 2]);
        assert(crate::text::yes_at(answer, i));
    }
}

/// Whatever the stage, a tool that exits with a failure status ends the
/// operation with an execution error, and one that cannot be launched with
/// a launch error: never with a value.
pub proof fn lemma_tool_failure_is_error(stage: Stage, out: Seq<u8>, why: Seq<char>, text_ok: bool)
    ensures
        next_spec(stage, OutcomeModel::Exited(false, out), text_ok) == failed(
            ErrorKind::Execution,
            stage,
        ),
        next_spec(stage, OutcomeModel::SpawnFailed(why), text_ok) == StepModel::Failed(
            ErrorKind::Spawn,
            stage,
            why,
        ),
{
}

/// Reading the volume changes nothing: it runs one query, which ends the
/// operation, so two readings against the same answer give the same result.
pub proof fn lemma_reading_is_repeatable(p: Platform, first: OutcomeModel, second: OutcomeModel, text_ok: bool)
    requires
        first == second,
    ensures
        match get_volume_spec(p) {
            StepModel::Run(stage) => {
                &&& stage == Stage::MacReadVolume || stage == Stage::PactlReadVolume
                &&& !(next_spec(stage, first, text_ok) is Run)
                &&& next_spec(stage, first, text_ok) == next_spec(stage, second, text_ok)
            },
            StepModel::Finished(r) => r == Reply::Volume(50),
            _ => false,
        },
{
}

} // verus!
