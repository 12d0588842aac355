//! What the output of the DSH process means.

use vstd::prelude::*;

use crate::effect::{emit, status, Effect, EffectData, DSH_ERROR, DSH_READY};
use crate::failure::labelled;
use crate::text::{find, token_from, trim};

verus! {

/// What precedes the URL in the line by which DSH says that it is ready.
pub const READY_MARKER: &'static str = "dsh web: ";

/// Status line once DSH is ready.
pub const READY_STATUS: &'static str = "DSH 服务已就绪";

/// Logged when the process ends before it was ready.
pub const EARLY_EXIT_LOG: &'static str = "DSH 进程在未输出就绪信号前退出";

/// Shown when the process ends before it was ready.
pub const EARLY_EXIT_ERROR: &'static str = "DSH 进程异常退出，详见 ~/deepseek-work-preview/deepseek-work.log";

/// What precedes a line of the process's error output in the log.
pub const STDERR_LABEL: &'static str = "DSH stderr: ";

/// The URL that a line of output announces: the first token behind the first marker.
pub open spec fn announced(line: Seq<char>) -> Option<Seq<char>> {
    if exists|at: int| crate::text::first_at(line, READY_MARKER@, at) {
        let at = choose|at: int| crate::text::first_at(line, READY_MARKER@, at);
        crate::text::first_token(line.skip(at + READY_MARKER@.len()))
    } else {
        None
    }
}

/// The URL that a line of the process's output announces, if it does.
///
/// The line reads `dsh web: <url>` or `dsh web: <url> (LAN: ..)`.
pub fn ready_url(line: &str) -> (url: Option<String>)
    ensures
        crate::failure::opt_text(url) == announced(line@),
{
    match find(line, READY_MARKER) {
        Some(at) => {
            proof {
                crate::text::lemma_first_is_unique(
                    line@,
                    READY_MARKER@,
                    at as int,
                    choose|i: int| crate::text::first_at(line@, READY_MARKER@, i),
                );
            }
            let len: usize = READY_MARKER.unicode_len();
            let total: usize = line.unicode_len();
            assert(at + len <= total);
            token_from(line, at + len)
        },
        None => {
            assert(forall|i: int|
                #![trigger crate::text::first_at(line@, READY_MARKER@, i)]
                crate::text::first_at(line@, READY_MARKER@, i) ==> crate::text::occurs_at(
                    line@,
                    READY_MARKER@,
                    i,
                ));
            None
        },
    }
}

/// What has been learnt from the process's output so far.
#[derive(Debug, PartialEq, Eq)]
pub struct OutputMonitor {
    pub url: Option<String>,
}

/// The URL known after one more line.
pub open spec fn url_after(known: Option<Seq<char>>, line: Seq<char>) -> Option<Seq<char>> {
    match announced(line) {
        Some(url) => Some(url),
        None => known,
    }
}

/// The URL known after all of `lines`.
pub open spec fn url_after_all(lines: Seq<Seq<char>>) -> Option<Seq<char>>
    decreases lines.len(),
{
    if lines.len() == 0 {
        None
    } else {
        url_after(url_after_all(lines.drop_last()), lines.last())
    }
}

/// What follows a line that announces `url`.
pub open spec fn ready_effects(url: Seq<char>) -> Seq<EffectData> {
    seq![
        EffectData::StoreUrl(url),
        EffectData::Navigate(url),
        EffectData::Emit { event: DSH_READY@, payload: url },
        crate::effect::status_data(READY_STATUS@),
    ]
}

/// What follows the end of the output, given the URL known by then.
pub open spec fn close_effects(known: Option<Seq<char>>) -> Seq<EffectData> {
    if known is None {
        seq![
            EffectData::Log(EARLY_EXIT_LOG@),
            EffectData::Emit { event: DSH_ERROR@, payload: EARLY_EXIT_ERROR@ },
        ]
    } else {
        Seq::empty()
    }
}

impl View for OutputMonitor {
    type V = Option<Seq<char>>;

    open spec fn view(&self) -> Option<Seq<char>> {
        crate::failure::opt_text(self.url)
    }
}

impl OutputMonitor {
    /// Nothing has been read yet.
    pub fn new() -> (monitor: OutputMonitor)
        ensures
            monitor@ == url_after_all(Seq::empty()),
    {
        OutputMonitor { url: None }
    }

    /// Takes in one line of output and says what to do about it.
    pub fn line(&mut self, line: &str) -> (effects: Vec<Effect>)
        ensures
            final(self)@ == url_after(old(self)@, line@),
            crate::effect::listed(effects) == match announced(line@) {
                Some(url) => ready_effects(url),
                None => Seq::empty(),
            },
            announced(line@) matches Some(url) ==> effects@.len() == 4 && effects@[0]@
                == EffectData::StoreUrl(url) && effects@[1]@ == EffectData::Navigate(url)
                && effects@[2]@ == (EffectData::Emit { event: "dsh-ready"@, payload: url }),
            announced(line@) is None ==> effects@.len() == 0,
    {
        let mut effects: Vec<Effect> = Vec::new();
        match ready_url(line) {
            Some(url) => {
                effects.push(Effect::StoreUrl(url.clone()));
                effects.push(Effect::Navigate(url.clone()));
                effects.push(emit(DSH_READY, url.as_str()));
                effects.push(status(READY_STATUS));
                assert(crate::effect::listed(effects) =~= ready_effects(url@));
                self.url = Some(url);
            },
            None => {
                assert(crate::effect::listed(effects) =~= Seq::empty());
            },
        }
        effects
    }

    /// The output has ended: without a ready line, the process died early.
    pub fn closed(&self) -> (effects: Vec<Effect>)
        ensures
            crate::effect::listed(effects) == close_effects(self@),
    {
        let mut effects: Vec<Effect> = Vec::new();
        if self.url.is_none() {
            effects.push(Effect::Log(EARLY_EXIT_LOG.to_owned()));
            effects.push(emit(DSH_ERROR, EARLY_EXIT_ERROR));
        }
        assert(crate::effect::listed(effects) =~= close_effects(self@));
        effects
    }
}

/// A line `dsh web: <url>`, whatever stands before the marker, and behind the
/// URL after white space, announces that URL, however long it is. White space
/// may stand before it. Where nothing but white space follows the marker,
/// nothing is announced.
pub proof fn law_ready_line_announces_its_url(
    before: Seq<char>,
    space: Seq<char>,
    url: Seq<char>,
    after: Seq<char>,
)
    requires
        forall|at: int|
            0 <= at < before.len() ==> !#[trigger] crate::text::occurs_at(
                before + "dsh web: "@ + space + url + after,
                "dsh web: "@,
                at,
            ),
        forall|i: int| 0 <= i < space.len() ==> crate::text::is_white_space(#[trigger] space[i]),
        forall|i: int| 0 <= i < url.len() ==> !crate::text::is_white_space(#[trigger] url[i]),
        after.len() > 0 ==> crate::text::is_white_space(after[0]),
        url.len() == 0 ==> after.len() == 0,
    ensures
        url.len() > 0 ==> announced(before + "dsh web: "@ + space + url + after) == Some(url),
        url.len() == 0 ==> announced(before + "dsh web: "@ + space + url + after) is None,
{
    let line = before + "dsh web: "@ + space + url + after;
    let here = before.len() as int;
    assert(line.subrange(here, here + "dsh web: "@.len()) =~= "dsh web: "@);
    assert(crate::text::first_at(line, READY_MARKER@, here));
    let at = choose|at: int| crate::text::first_at(line, READY_MARKER@, at);
    crate::text::lemma_first_is_unique(line, READY_MARKER@, at, here);
    crate::text::law_first_token(space, url, after);
    if url.len() > 0 {
        assert(line.skip(at + READY_MARKER@.len()) =~= space + url + after);
    } else {
        assert(line.skip(at + READY_MARKER@.len()) =~= space);
    }
}

/// A line that holds no marker announces nothing.
pub proof fn law_other_lines_announce_nothing(line: Seq<char>)
    requires
        forall|at: int| !#[trigger] crate::text::occurs_at(line, "dsh web: "@, at),
    ensures
        announced(line) is None,
{
    assert forall|at: int| !#[trigger] crate::text::first_at(line, READY_MARKER@, at) by {
        assert(!crate::text::occurs_at(line, "dsh web: "@, at));
    }
}

/// A URL that a line announces is not empty and holds no white space.
pub proof fn law_announced_url_is_one_token(line: Seq<char>)
    ensures
        announced(line) matches Some(url) ==> url.len() > 0 && forall|i: int|
            0 <= i < url.len() ==> !crate::text::is_white_space(#[trigger] url[i]),
{
    if exists|at: int| crate::text::first_at(line, READY_MARKER@, at) {
        let at = choose|at: int| crate::text::first_at(line, READY_MARKER@, at);
        let rest = crate::text::trim_start(line.skip(at + READY_MARKER@.len()));
        crate::text::lemma_word_has_no_white_space(rest);
    }
}

/// Whether line `i` is the last one that announces a URL.
pub open spec fn is_last_announcement(lines: Seq<Seq<char>>, i: int) -> bool {
    &&& 0 <= i < lines.len()
    &&& announced(lines[i]) is Some
    &&& forall|j: int| i < j < lines.len() ==> announced(#[trigger] lines[j]) is None
}

/// The URL known in the end is the one that was announced last.
pub proof fn law_last_announcement_counts(lines: Seq<Seq<char>>, i: int)
    requires
        is_last_announcement(lines, i),
    ensures
        url_after_all(lines) == announced(lines[i]),
    decreases lines.len(),
{
    if i < lines.len() - 1 {
        assert forall|j: int| i < j < lines.drop_last().len() implies announced(
            #[trigger] lines.drop_last()[j],
        ) is None by {
            assert(lines.drop_last()[j] == lines[j]);
        }
        assert(announced(lines[lines.len() - 1]) is None);
        law_last_announcement_counts(lines.drop_last(), i);
    }
}

/// An early end is reported exactly if no line announced a URL.
pub proof fn law_early_exit_is_reported(lines: Seq<Seq<char>>)
    ensures
        close_effects(url_after_all(lines)).len() > 0 <==> forall|i: int|
            0 <= i < lines.len() ==> announced(#[trigger] lines[i]) is None,
    decreases lines.len(),
{
    if lines.len() > 0 {
        let rest = lines.drop_last();
        law_early_exit_is_reported(rest);
        assert(forall|i: int| 0 <= i < rest.len() ==> #[trigger] rest[i] == lines[i]);
        if forall|i: int| 0 <= i < rest.len() ==> announced(#[trigger] rest[i]) is None {
            assert forall|i: int| 0 <= i < lines.len() && announced(lines.last()) is None implies
                announced(#[trigger] lines[i]) is None by {
                if i < lines.len() - 1 {
                    assert(rest[i] == lines[i]);
                }
            }
        } else {
            let i = choose|i: int|
                0 <= i < rest.len() && announced(#[trigger] rest[i]) is Some;
            assert(announced(lines[i]) is Some);
        }
        assert(lines.last() == lines[lines.len() - 1]);
    }
}

/// What the log says of a line of error output: nothing of a blank one.
pub open spec fn stderr_message(line: Seq<char>) -> Option<Seq<char>> {
    if crate::text::trimmed(line).len() == 0 {
        None
    } else {
        Some(STDERR_LABEL@ + crate::text::trimmed(line))
    }
}

/// What to log of a line of the process's error output.
pub fn stderr_log(line: &str) -> (message: Option<String>)
    ensures
        crate::failure::opt_text(message) == stderr_message(line@),
{
    let trimmed = trim(line);
    if trimmed.as_str().is_empty() {
        None
    } else {
        Some(labelled(STDERR_LABEL, trimmed.as_str()))
    }
}

/// A line of error output is logged without the white space around it, and
/// not at all if there is nothing else in it.
pub proof fn law_stderr_is_logged_trimmed(line: Seq<char>)
    ensures
        stderr_message(line) matches Some(message) ==> {
            let text = message.skip("DSH stderr: "@.len() as int);
            &&& message == "DSH stderr: "@ + text
            &&& text.len() > 0
            &&& !crate::text::is_white_space(text[0])
            &&& !crate::text::is_white_space(text.last())
        },
{
    crate::text::law_trimming(line);
    let trimmed = crate::text::trimmed(line);
    assert((STDERR_LABEL@ + trimmed).skip(STDERR_LABEL@.len() as int) =~= trimmed);
}

/// Whatever URL is announced, exactly that URL is recorded for the process,
/// the window is taken to it, and the page is told it, in that order; the
/// status line says that DSH is ready.
pub proof fn law_announced_url_is_gone_to(url: Seq<char>)
    ensures
        ready_effects(url).len() == 4,
        ready_effects(url)[0] == EffectData::StoreUrl(url),
        ready_effects(url)[1] == EffectData::Navigate(url),
        ready_effects(url)[2] == (EffectData::Emit { event: "dsh-ready"@, payload: url }),
        ready_effects(url)[3] == (EffectData::Emit {
            event: "boot-status"@,
            payload: "DSH 服务已就绪"@,
        }),
{
}

/// A line changes what is known exactly if it announces a URL, and to that URL.
pub proof fn law_line_changes_what_is_known(known: Option<Seq<char>>, line: Seq<char>)
    ensures
        announced(line) is Some ==> url_after(known, line) == announced(line),
        announced(line) is None ==> url_after(known, line) == known,
{
}

/// At the end of the output, nothing is to be done if a URL is known, whichever
/// it is; else the early end is logged and the page is told.
pub proof fn law_end_of_output(url: Seq<char>)
    ensures
        close_effects(Some(url)).len() == 0,
        close_effects(None) == seq![
            EffectData::Log("DSH 进程在未输出就绪信号前退出"@),
            EffectData::Emit {
                event: "dsh-error"@,
                payload: "DSH 进程异常退出，详见 ~/deepseek-work-preview/deepseek-work.log"@,
            },
        ],
{
}

/// Whatever white space stands around a line of error output, the rest of it
/// is logged whole; of a blank line nothing is.
pub proof fn law_stderr_text_is_logged(before: Seq<char>, text: Seq<char>, after: Seq<char>)
    requires
        forall|i: int|
            0 <= i < before.len() ==> crate::text::is_white_space(#[trigger] before[i]),
        forall|i: int| 0 <= i < after.len() ==> crate::text::is_white_space(#[trigger] after[i]),
        text.len() > 0 ==> !crate::text::is_white_space(text[0]) && !crate::text::is_white_space(
            text.last(),
        ),
    ensures
        text.len() > 0 ==> stderr_message(before + text + after) == Some("DSH stderr: "@ + text),
        text.len() == 0 ==> stderr_message(before + text + after) is None,
{
    crate::text::law_trimming_leaves_the_text(before, text, after);
}

} // verus!
