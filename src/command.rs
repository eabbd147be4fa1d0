//! The command-line grammar of the image tool: which operation the arguments
//! ask for, with the text of each argument kept for the caller to convert.

use vstd::prelude::*;
use crate::shading::ChannelPolicy;

verus! {

/// One editing step applied to an opened image. Numeric arguments are kept
/// as the text given on the command line.
#[derive(Debug, PartialEq, Eq)]
pub enum Step {
    Blur { rate: String },
    Brighten { amount: String },
    Crop { x: String, y: String, width: String, height: String },
    Rotate { degrees: String },
    Invert,
    Grayscale,
}

/// What a command line asks for.
#[derive(Debug, PartialEq, Eq)]
pub enum Command {
    /// Generate a procedural image with the given channel layout and write it
    /// to `output`.
    Render { policy: ChannelPolicy, output: String },
    /// Open `input`, apply `steps` in order and write the result to `output`.
    Edit { input: String, output: String, steps: Vec<Step> },
    /// The arguments are malformed: show the usage text and fail.
    Usage,
}

/// A step with its arguments as character sequences.
pub enum StepView {
    Blur(Seq<char>),
    Brighten(Seq<char>),
    Crop(Seq<char>, Seq<char>, Seq<char>, Seq<char>),
    Rotate(Seq<char>),
    Invert,
    Grayscale,
}

/// A command with its arguments as character sequences.
pub enum CommandView {
    Render(ChannelPolicy, Seq<char>),
    Edit(Seq<char>, Seq<char>, Seq<StepView>),
    Usage,
}

impl View for Step {
    type V = StepView;

    open spec fn view(&self) -> StepView {
        match self {
            Step::Blur { rate } => StepView::Blur(rate@),
            Step::Brighten { amount } => StepView::Brighten(amount@),
            Step::Crop { x, y, width, height } => StepView::Crop(x@, y@, width@, height@),
            Step::Rotate { degrees } => StepView::Rotate(degrees@),
            Step::Invert => StepView::Invert,
            Step::Grayscale => StepView::Grayscale,
        }
    }
}

impl View for Command {
    type V = CommandView;

    open spec fn view(&self) -> CommandView {
        match self {
            Command::Render { policy, output } => CommandView::Render(*policy, output@),
            Command::Edit { input, output, steps } => CommandView::Edit(
                input@,
                output@,
                steps@.map_values(|s: Step| s@),
            ),
            Command::Usage => CommandView::Usage,
        }
    }
}

/// The character sequences of a list of arguments.
pub open spec fn texts(args: Seq<String>) -> Seq<Seq<char>> {
    args.map_values(|a: String| a@)
}

/// Puts `head` in front of a parsed step list, keeping a failure a failure.
pub open spec fn prepend(head: Seq<StepView>, rest: Option<Seq<StepView>>) -> Option<Seq<StepView>> {
    match rest {
        Some(t) => Some(head + t),
        None => None,
    }
}

/// The steps named by `words`, or `None` when a word is unknown or a step
/// lacks its arguments.
pub open spec fn steps_spec(words: Seq<Seq<char>>) -> Option<Seq<StepView>>
    decreases words.len(),
{
    if words.len() == 0 {
        Some(Seq::empty())
    } else {
        let w = words[0];
        if w == "blur"@ {
            if words.len() < 2 {
                None
            } else {
                prepend(seq![StepView::Blur(words[1])], steps_spec(words.subrange(2, words.len() as int)))
            }
        } else if w == "brighten"@ {
            if words.len() < 2 {
                None
            } else {
                prepend(seq![StepView::Brighten(words[1])], steps_spec(words.subrange(2, words.len() as int)))
            }
        } else if w == "crop"@ {
            if words.len() < 5 {
                None
            } else {
                prepend(
                    seq![StepView::Crop(words[1], words[2], words[3], words[4])],
                    steps_spec(words.subrange(5, words.len() as int)),
                )
            }
        } else if w == "rotate"@ {
            if words.len() < 2 {
                None
            } else {
                prepend(seq![StepView::Rotate(words[1])], steps_spec(words.subrange(2, words.len() as int)))
            }
        } else if w == "invert"@ {
            prepend(seq![StepView::Invert], steps_spec(words.subrange(1, words.len() as int)))
        } else if w == "grayscale"@ {
            prepend(seq![StepView::Grayscale], steps_spec(words.subrange(1, words.len() as int)))
        } else {
            None
        }
    }
}

/// The command that the arguments (program name excluded) ask for.
pub open spec fn command_spec(args: Seq<Seq<char>>) -> CommandView {
    if args.len() == 0 {
        CommandView::Usage
    } else if args[0] == "fractal"@ || args[0] == "generate"@ {
        if args.len() != 2 {
            CommandView::Usage
        } else if args[0] == "fractal"@ {
            CommandView::Render(
                ChannelPolicy {
                    red: crate::shading::ChannelSource::GradientX,
                    green: crate::shading::ChannelSource::Iterations,
                    blue: crate::shading::ChannelSource::GradientY,
                },
                args[1],
            )
        } else {
            CommandView::Render(
                ChannelPolicy {
                    red: crate::shading::ChannelSource::Iterations,
                    green: crate::shading::ChannelSource::GradientY,
                    blue: crate::shading::ChannelSource::GradientX,
                },
                args[1],
            )
        }
    } else if args.len() < 2 {
        CommandView::Usage
    } else {
        match steps_spec(args.subrange(2, args.len() as int)) {
            Some(steps) => CommandView::Edit(args[0], args[1], steps),
            None => CommandView::Usage,
        }
    }
}

/// Whether `arg` is exactly the word `word`.
fn is_word(arg: &String, word: &str) -> (r: bool)
    ensures
        r == (arg@ == word@),
{
    *arg == word.to_owned()
}

/// The views of a list of steps.
pub open spec fn step_views(steps: Seq<Step>) -> Seq<StepView> {
    steps.map_values(|s: Step| s@)
}

/// The arguments from position `start` on, as character sequences.
pub open spec fn suffix_texts(args: Seq<String>, start: int) -> Seq<Seq<char>> {
    texts(args).subrange(start, args.len() as int)
}

proof fn lemma_prepend_push(acc: Seq<StepView>, s: StepView, rest: Option<Seq<StepView>>)
    ensures
        prepend(acc, prepend(seq![s], rest)) == prepend(acc.push(s), rest),
{
    if let Some(t) = rest {
        assert(acc + (seq![s] + t) =~= acc.push(s) + t);
    }
}

proof fn lemma_suffix_shift(args: Seq<String>, i: int, k: int)
    requires
        0 <= i,
        0 <= k,
        i + k <= args.len(),
    ensures
        suffix_texts(args, i).subrange(k, suffix_texts(args, i).len() as int) == suffix_texts(args, i + k),
        i < args.len() ==> suffix_texts(args, i)[0] == args[i]@,
        forall|j: int| 0 <= j < args.len() - i ==> #[trigger] suffix_texts(args, i)[j] == args[i + j]@,
{
    assert(suffix_texts(args, i).subrange(k, suffix_texts(args, i).len() as int) =~= suffix_texts(args, i + k));
}

/// Parses the editing steps that start at position `start` of `args`.
fn parse_steps(args: &Vec<String>, start: usize) -> (r: Option<Vec<Step>>)
    requires
        start <= args.len(),
    ensures
        r matches Some(v) ==> steps_spec(suffix_texts(args@, start as int)) == Some(step_views(v@)),
        r is None ==> steps_spec(suffix_texts(args@, start as int)) is None,
{
    let mut steps: Vec<Step> = Vec::new();
    let mut i: usize = start;
    assert(step_views(steps@) =~= Seq::<StepView>::empty());
    assert(Seq::<StepView>::empty() + Seq::<StepView>::empty() =~= Seq::<StepView>::empty());
    while i < args.len()
        invariant
            start <= i <= args.len(),
            steps_spec(suffix_texts(args@, start as int)) == prepend(
                step_views(steps@),
                steps_spec(suffix_texts(args@, i as int)),
            ),
        decreases args.len() - i,
    {
        let ghost rest = suffix_texts(args@, i as int);
        let ghost before = step_views(steps@);
        let ghost n = args@.len() as int;
        proof {
            lemma_suffix_shift(args@, i as int, 0);
            assert(rest.len() == n - i);
        }
        let word = &args[i];
        let step = if is_word(word, "blur") {
            if args.len() - i < 2 {
                return None;
            }
            Step::Blur { rate: args[i + 1].clone() }
        } else if is_word(word, "brighten") {
            if args.len() - i < 2 {
                return None;
            }
            Step::Brighten { amount: args[i + 1].clone() }
        } else if is_word(word, "crop") {
            if args.len() - i < 5 {
                return None;
            }
            Step::Crop {
                x: args[i + 1].clone(),
                y: args[i + 2].clone(),
                width: args[i + 3].clone(),
                height: args[i + 4].clone(),
            }
        } else if is_word(word, "rotate") {
            if args.len() - i < 2 {
                return None;
            }
            Step::Rotate { degrees: args[i + 1].clone() }
        } else if is_word(word, "invert") {
            Step::Invert
        } else if is_word(word, "grayscale") {
            Step::Grayscale
        } else {
            return None;
        };
        let used: usize = match step {
            Step::Blur { .. } | Step::Brighten { .. } | Step::Rotate { .. } => 2,
            Step::Crop { .. } => 5,
            Step::Invert | Step::Grayscale => 1,
        };
        proof {
            lemma_suffix_shift(args@, i as int, used as int);
            assert(steps_spec(rest) == prepend(seq![step@], steps_spec(suffix_texts(args@, i + used))));
            lemma_prepend_push(before, step@, steps_spec(suffix_texts(args@, i + used)));
            assert(step_views(steps@.push(step)) =~= before.push(step@));
        }
        steps.push(step);
        i = i + used;
    }
    proof {
        assert(suffix_texts(args@, i as int) =~= Seq::<Seq<char>>::empty());
        assert(step_views(steps@) + Seq::<StepView>::empty() =~= step_views(steps@));
    }
    Some(steps)
}

/// Reads a command line (program name excluded). `fractal OUT` and
/// `generate OUT` render a procedural image; `IN OUT STEP...` edits an
/// image; anything else, including a word that is not a step or a step
/// short of its arguments, asks for the usage text.
pub fn parse_command(args: &Vec<String>) -> (cmd: Command)
    ensures
        cmd@ == command_spec(texts(args@)),
{
    let ghost words = texts(args@);
    let n = args.len();
    if n == 0 {
        return Command::Usage;
    }
    proof {
        lemma_suffix_shift(args@, 0, 0);
        assert(suffix_texts(args@, 0) =~= words);
    }
    let is_fractal = is_word(&args[0], "fractal");
    let is_generate = is_word(&args[0], "generate");
    if is_fractal || is_generate {
        if n != 2 {
            return Command::Usage;
        }
        let policy = if is_fractal {
            ChannelPolicy::fractal()
        } else {
            ChannelPolicy::generate()
        };
        return Command::Render { policy, output: args[1].clone() };
    }
    if n < 2 {
        return Command::Usage;
    }
    proof {
        assert(suffix_texts(args@, 2) =~= words.subrange(2, words.len() as int));
    }
    match parse_steps(args, 2) {
        Some(steps) => {
            let cmd = Command::Edit { input: args[0].clone(), output: args[1].clone(), steps };
            assert(cmd@ == CommandView::Edit(words[0], words[1], step_views(steps@)));
            cmd
        },
        None => Command::Usage,
    }
}

/// A clockwise rotation by a whole number of quarter turns.
#[derive(Clone, Copy, Debug, PartialEq, Eq, Structural)]
pub enum Rotation {
    Unchanged,
    Quarter,
    Half,
    ThreeQuarters,
}

/// The rotation that `degrees` asks for: a multiple of 90 degrees, taken
/// modulo a full turn, turns the image; any other amount leaves it as it is.
pub open spec fn rotation_spec(degrees: u32) -> Rotation {
    if degrees % 360 == 90 {
        Rotation::Quarter
    } else if degrees % 360 == 180 {
        Rotation::Half
    } else if degrees % 360 == 270 {
        Rotation::ThreeQuarters
    } else {
        Rotation::Unchanged
    }
}

/// The rotation that `degrees` asks for.
pub fn rotation_for(degrees: u32) -> (r: Rotation)
    ensures
        r == rotation_spec(degrees),
{
    let turn = degrees % 360;
    if turn == 90 {
        Rotation::Quarter
    } else if turn == 180 {
        Rotation::Half
    } else if turn == 270 {
        Rotation::ThreeQuarters
    } else {
        Rotation::Unchanged
    }
}

/// The usage text, one line per entry: a hint, then every operation with its
/// arguments.
pub open spec fn usage_spec() -> Seq<Seq<char>> {
    seq![
        "USAGE (when in doubt, use a .png extension on your filenames)"@,
        "blur from to BLUR_RATE"@,
        "brighten from to BRIGHTNESS"@,
        "crop from to X Y WIDTH HEIGHT"@,
        "rotate from to ROTATION_AMOUNT (in degrees)"@,
        "invert from to"@,
        "grayscale from to"@,
        "fractal to"@,
        "generate to"@,
    ]
}

/// The usage text shown for a malformed command line.
pub fn usage_lines() -> (lines: Vec<&'static str>)
    ensures
        lines@.map_values(|l: &str| l@) == usage_spec(),
{
    let lines = vec![
        "USAGE (when in doubt, use a .png extension on your filenames)",
        "blur from to BLUR_RATE",
        "brighten from to BRIGHTNESS",
        "crop from to X Y WIDTH HEIGHT",
        "rotate from to ROTATION_AMOUNT (in degrees)",
        "invert from to",
        "grayscale from to",
        "fractal to",
        "generate to",
    ];
    assert(lines@.map_values(|l: &str| l@) =~= usage_spec());
    lines
}

} // verus!
