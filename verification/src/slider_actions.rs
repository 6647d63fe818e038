//! Software-side slider actions: the system commands that a slider step runs.
//!
//! The keyboard's touch sliders send raw touch events; the host maps them to
//! OS-level commands (volume, brightness, etc.).

use vstd::prelude::*;
use crate::config::SliderAction;
use crate::text::string_of;

verus! {

/// A program and its arguments.
#[derive(Debug, Clone)]
pub struct ShellCommand {
    pub program: String,
    pub args: Vec<String>,
}

/// The command for a slider step, and the one to run where the first
/// cannot be started.
#[derive(Debug, Clone)]
pub struct SliderCommand {
    pub primary: ShellCommand,
    pub fallback: Option<ShellCommand>,
}

/// Program and arguments of a command, as text.
pub open spec fn command_view(c: ShellCommand) -> (Seq<char>, Seq<Seq<char>>) {
    (c.program@, c.args@.map_values(|a: String| a@))
}

/// Program and arguments of a step's commands, as text.
pub open spec fn slider_command_view(c: SliderCommand)
    -> ((Seq<char>, Seq<Seq<char>>), Option<(Seq<char>, Seq<Seq<char>>)>) {
    (command_view(c.primary), match c.fallback { Some(f) => Some(command_view(f)), None => None })
}

/// The commands that one step of `action` runs (upwards where `up`), if any.
pub open spec fn slider_step_plan(action: SliderAction, up: bool)
    -> Option<((Seq<char>, Seq<Seq<char>>), Option<(Seq<char>, Seq<Seq<char>>)>)> {
    match action {
        SliderAction::Brightness => Some((("brightnessctl"@, seq!["set"@, if up { "5%+"@ } else { "5%-"@ }]), None)),
        SliderAction::Volume => Some((
            ("wpctl"@, seq!["set-volume"@, "@DEFAULT_AUDIO_SINK@"@, if up { "5%+"@ } else { "5%-"@ }]),
            Some(("pactl"@, seq!["set-sink-volume"@, "@DEFAULT_SINK@"@, if up { "+5%"@ } else { "-5%"@ }])),
        )),
        SliderAction::MediaScrub => Some((("playerctl"@, seq!["position"@, if up { "5+"@ } else { "5-"@ }]), None)),
        SliderAction::ZoomLevel => Some((("xdotool"@, seq!["key"@, if up { "ctrl+plus"@ } else { "ctrl+minus"@ }]), None)),
        SliderAction::ScrollSpeed => Some((("xdotool"@, seq!["click"@, if up { "4"@ } else { "5"@ }]), None)),
        SliderAction::Custom(cmd) => if cmd@.len() == 0 {
            None
        } else {
            Some((("sh"@, seq!["-c"@, cmd@]), None))
        },
    }
}

fn command(program: &str, a: &str, b: &str) -> (r: ShellCommand)
    ensures
        command_view(r) == (program@, seq![a@, b@]),
{
    let mut args: Vec<String> = Vec::new();
    args.push(string_of(a));
    args.push(string_of(b));
    let r = ShellCommand { program: string_of(program), args };
    assert(command_view(r).1 =~= seq![a@, b@]);
    r
}

fn command3(program: &str, a: &str, b: &str, c: &str) -> (r: ShellCommand)
    ensures
        command_view(r) == (program@, seq![a@, b@, c@]),
{
    let mut args: Vec<String> = Vec::new();
    args.push(string_of(a));
    args.push(string_of(b));
    args.push(string_of(c));
    let r = ShellCommand { program: string_of(program), args };
    assert(command_view(r).1 =~= seq![a@, b@, c@]);
    r
}

/// The commands that one step of `action` runs: upwards where `up`,
/// downwards otherwise; none for an empty custom command.
pub fn slider_step_command(action: &SliderAction, up: bool) -> (r: Option<SliderCommand>)
    ensures
        match r {
            Some(c) => slider_step_plan(*action, up) == Some(slider_command_view(c)),
            None => slider_step_plan(*action, up) is None,
        },
{
    let primary = match action {
        SliderAction::Brightness => command("brightnessctl", "set", if up { "5%+" } else { "5%-" }),
        SliderAction::Volume => {
            let primary = command3("wpctl", "set-volume", "@DEFAULT_AUDIO_SINK@", if up { "5%+" } else { "5%-" });
            let fallback = command3("pactl", "set-sink-volume", "@DEFAULT_SINK@", if up { "+5%" } else { "-5%" });
            return Some(SliderCommand { primary, fallback: Some(fallback) });
        },
        SliderAction::MediaScrub => command("playerctl", "position", if up { "5+" } else { "5-" }),
        SliderAction::ZoomLevel => command("xdotool", "key", if up { "ctrl+plus" } else { "ctrl+minus" }),
        SliderAction::ScrollSpeed => command("xdotool", "click", if up { "4" } else { "5" }),
        SliderAction::Custom(cmd) => {
            if cmd.as_str().is_empty() {
                return None;
            }
            command("sh", "-c", cmd.as_str())
        },
    };
    Some(SliderCommand { primary, fallback: None })
}

/// The commands of an upward slider step.
pub fn increment_command(action: &SliderAction) -> (r: Option<SliderCommand>)
    ensures
        match r {
            Some(c) => slider_step_plan(*action, true) == Some(slider_command_view(c)),
            None => slider_step_plan(*action, true) is None,
        },
{
    slider_step_command(action, true)
}

/// The commands of a downward slider step.
pub fn decrement_command(action: &SliderAction) -> (r: Option<SliderCommand>)
    ensures
        match r {
            Some(c) => slider_step_plan(*action, false) == Some(slider_command_view(c)),
            None => slider_step_plan(*action, false) is None,
        },
{
    slider_step_command(action, false)
}

/// Slider direction law: a step up raises and a step down lowers what the
/// action controls: brightness and volume by 5% up or down (volume through
/// PipeWire, else PulseAudio), the media position by 5 s forward or back,
/// zoom in (ctrl+plus) or out (ctrl+minus), and a scroll up (button 4) or
/// down (button 5); a custom action runs its command through the shell in
/// both directions, and nothing where it is empty.
pub proof fn lemma_slider_step_directions(action: SliderAction, up: bool)
    ensures
        action is Brightness ==> slider_step_plan(action, up) == Some(
            (("brightnessctl"@, seq!["set"@, if up { "5%+"@ } else { "5%-"@ }]), None::<(Seq<char>, Seq<Seq<char>>)>),
        ),
        action is Volume ==> slider_step_plan(action, up) == Some((
            ("wpctl"@, seq!["set-volume"@, "@DEFAULT_AUDIO_SINK@"@, if up { "5%+"@ } else { "5%-"@ }]),
            Some(("pactl"@, seq!["set-sink-volume"@, "@DEFAULT_SINK@"@, if up { "+5%"@ } else { "-5%"@ }])),
        )),
        action is MediaScrub ==> slider_step_plan(action, up) == Some(
            (("playerctl"@, seq!["position"@, if up { "5+"@ } else { "5-"@ }]), None::<(Seq<char>, Seq<Seq<char>>)>),
        ),
        action is ZoomLevel && up ==> slider_step_plan(action, up) == Some(
            (("xdotool"@, seq!["key"@, "ctrl+plus"@]), None::<(Seq<char>, Seq<Seq<char>>)>),
        ),
        action is ZoomLevel && !up ==> slider_step_plan(action, up) == Some(
            (("xdotool"@, seq!["key"@, "ctrl+minus"@]), None::<(Seq<char>, Seq<Seq<char>>)>),
        ),
        action is ScrollSpeed && up ==> slider_step_plan(action, up) == Some(
            (("xdotool"@, seq!["click"@, "4"@]), None::<(Seq<char>, Seq<Seq<char>>)>),
        ),
        action is ScrollSpeed && !up ==> slider_step_plan(action, up) == Some(
            (("xdotool"@, seq!["click"@, "5"@]), None::<(Seq<char>, Seq<Seq<char>>)>),
        ),
        action matches SliderAction::Custom(cmd) ==> slider_step_plan(action, up) == if cmd@.len() == 0 {
            None
        } else {
            Some((("sh"@, seq!["-c"@, cmd@]), None::<(Seq<char>, Seq<Seq<char>>)>))
        },
        slider_step_plan(action, up) is Some <==> !(action matches SliderAction::Custom(cmd) && cmd@.len() == 0),
{
}

} // verus!
