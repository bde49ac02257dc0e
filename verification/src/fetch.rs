//! What is handed to the usage fetcher, and what its outcome means for the store.

use vstd::prelude::*;
use vstd::string::*;
use crate::text::{chars_of, slice_of, text_of};
use crate::usage::{empty_item, failed_usage, UsageData, UsageDataView};

verus! {

/// The variable of the environment that names the command of the tool whose
/// usage is watched.
pub const TOOL_VARIABLE: &'static str = "USAGE_BAR_TOOL";

/// The shell script that opens the tool in a terminal session, asks it for
/// its usage screen, and prints what it finds there as one JSON object. It
/// takes the command of the tool from the environment, and fails where the
/// environment names none.
pub const USAGE_SCRIPT: &'static str = r#"#!/bin/bash
TOOL="${USAGE_BAR_TOOL:?names no tool}"
SESSION="$TOOL-usage-$$"
OUTPUT_FILE="/tmp/$TOOL-usage-raw-$$.txt"

cleanup() {
    tmux kill-session -t "$SESSION" 2>/dev/null || true
    rm -f "$OUTPUT_FILE"
}
trap cleanup EXIT

# Network check
if ! ping -c 1 -W 2 api.anthropic.com &>/dev/null; then
    echo '{"error": "No network connection"}'
    exit 0
fi

tmux new-session -d -s "$SESSION" -x 120 -y 50 2>/dev/null
if [ $? -ne 0 ]; then
    echo '{"error": "Failed to start tmux session"}'
    exit 0
fi

tmux send-keys -t "$SESSION" "$TOOL --dangerously-skip-permissions" Enter
sleep 5

tmux send-keys -t "$SESSION" "/usage"
sleep 1
tmux send-keys -t "$SESSION" Enter
sleep 4

tmux capture-pane -t "$SESSION" -p -S -50 > "$OUTPUT_FILE"
tmux send-keys -t "$SESSION" "/exit" Enter
sleep 1

python3 - "$OUTPUT_FILE" << 'PYTHON'
import re, json, sys
from datetime import datetime

try:
    with open(sys.argv[1]) as f:
        content = f.read()
except:
    print('{"error": "Failed to read output"}')
    sys.exit(0)

result = {
    "timestamp": datetime.now().isoformat(),
    "session": {"percent": None, "resets": None},
    "weekly_all": {"percent": None, "resets": None},
    "weekly_sonnet": {"percent": None, "resets": None}
}

current_section = None
for line in content.split("\n"):
    if "Current session" in line:
        current_section = "session"
    elif "Current week (all models)" in line:
        current_section = "weekly_all"
    elif "Current week (Sonnet only)" in line:
        current_section = "weekly_sonnet"

    if pct := re.search(r'(\d+)%\s*used', line):
        if current_section:
            result[current_section]["percent"] = int(pct.group(1))

    if reset := re.search(r'Resets?\s+(.+?)(?:\s*\(|$)', line):
        if current_section:
            result[current_section]["resets"] = reset.group(1).strip()

# Check if we got any data
if result["session"]["percent"] is None and result["weekly_all"]["percent"] is None:
    result["error"] = "Could not parse usage data"

print(json.dumps(result))
PYTHON
"#;

/// How many characters of unreadable output are quoted in a failure message.
pub const PREVIEW_CHARS: usize = 200;

/// How one run of the fetcher ended.
#[derive(Clone, Debug, PartialEq, Eq)]
pub enum FetchOutcome {
    /// The script ran and printed a snapshot, which may itself report an error.
    Snapshot(UsageData),
    /// The script ran, but what it printed is no snapshot: the reason, and the output.
    Unreadable { reason: String, output: String },
    /// The script ran and reported failure: what it wrote as its error output.
    ScriptFailed { stderr: String },
    /// The script could not be started: the reason.
    NotStarted { reason: String },
}

pub enum FetchOutcomeView {
    Snapshot(UsageDataView),
    Unreadable { reason: Seq<char>, output: Seq<char> },
    ScriptFailed { stderr: Seq<char> },
    NotStarted { reason: Seq<char> },
}

impl View for FetchOutcome {
    type V = FetchOutcomeView;

    open spec fn view(&self) -> FetchOutcomeView {
        match self {
            FetchOutcome::Snapshot(data) => FetchOutcomeView::Snapshot(data@),
            FetchOutcome::Unreadable { reason, output } => FetchOutcomeView::Unreadable {
                reason: reason@,
                output: output@,
            },
            FetchOutcome::ScriptFailed { stderr } => FetchOutcomeView::ScriptFailed {
                stderr: stderr@,
            },
            FetchOutcome::NotStarted { reason } => FetchOutcomeView::NotStarted { reason: reason@ },
        }
    }
}

/// The first characters of a text, up to `PREVIEW_CHARS` of them.
pub open spec fn preview_of(output: Seq<char>) -> Seq<char> {
    if output.len() <= PREVIEW_CHARS {
        output
    } else {
        output.subrange(0, PREVIEW_CHARS as int)
    }
}

/// The message for each way in which a fetch can fail: the error that a
/// printed snapshot reports of itself, or what went wrong around the script;
/// none for a snapshot without an error.
pub open spec fn failure_message(outcome: FetchOutcomeView) -> Option<Seq<char>> {
    match outcome {
        FetchOutcomeView::Snapshot(data) => data.error,
        FetchOutcomeView::Unreadable { reason, output } => Some(
            "Failed to parse JSON: "@ + reason + " | Output: "@ + preview_of(output),
        ),
        FetchOutcomeView::ScriptFailed { stderr } => Some("Script failed: "@ + stderr),
        FetchOutcomeView::NotStarted { reason } => Some("Failed to run script: "@ + reason),
    }
}

/// What the fetcher returns for an outcome: after a failure, a snapshot that
/// carries the message and nothing besides; else the snapshot as it was printed.
pub open spec fn usage_of(outcome: FetchOutcomeView) -> UsageDataView {
    match failure_message(outcome) {
        Some(message) => failed_usage(message),
        None => outcome->Snapshot_0,
    }
}

/// The script handed to the shell on every poll.
pub fn get_usage_script() -> (script: String)
    ensures
        script@ == USAGE_SCRIPT@,
{
    String::from_str(USAGE_SCRIPT)
}

/// The first characters of a text, up to `PREVIEW_CHARS` of them.
pub fn preview(output: &str) -> (r: String)
    ensures
        r@ == preview_of(output@),
{
    let chars = chars_of(output);
    if chars.len() <= PREVIEW_CHARS {
        text_of(&chars)
    } else {
        text_of(&slice_of(&chars, 0, PREVIEW_CHARS))
    }
}

/// Turns the outcome of a fetch into the snapshot that the store is given.
/// Every failure becomes a snapshot with `error` set and all items empty,
/// also the failure that the script reports in a snapshot of its own.
pub fn usage_from_outcome(outcome: FetchOutcome) -> (data: UsageData)
    ensures
        data@ == usage_of(outcome@),
        data@.error == failure_message(outcome@),
        data@.error is Some ==> data@.timestamp is None && data@.session == empty_item()
            && data@.weekly_all == empty_item() && data@.weekly_sonnet == empty_item(),
{
    match outcome {
        FetchOutcome::Snapshot(data) => {
            if data.error.is_some() {
                match data.error {
                    Some(message) => UsageData::failed(message),
                    None => UsageData::empty(),
                }
            } else {
                data
            }
        },
        FetchOutcome::Unreadable { reason, output } => {
            let mut message = String::from_str("Failed to parse JSON: ");
            message.append(reason.as_str());
            message.append(" | Output: ");
            let quoted = preview(output.as_str());
            message.append(quoted.as_str());
            UsageData::failed(message)
        },
        FetchOutcome::ScriptFailed { stderr } => {
            let mut message = String::from_str("Script failed: ");
            message.append(stderr.as_str());
            UsageData::failed(message)
        },
        FetchOutcome::NotStarted { reason } => {
            let mut message = String::from_str("Failed to run script: ");
            message.append(reason.as_str());
            UsageData::failed(message)
        },
    }
}

} // verus!
