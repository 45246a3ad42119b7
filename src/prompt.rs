//! Prompt templates: the fields of a prompt, the built-in presets, and rendering.

use vstd::prelude::*;
use crate::text::{append_chars, chars_of, string_from_chars, split_nl, lemma_split_nl_concat};

verus! {

/// Width of the divider line drawn from the separator character.
pub const SEPARATOR_WIDTH: usize = 16;

/// A prompt for the completion service.
#[derive(Clone, Debug)]
pub struct AiPrompt {
    /// The text before the language
    pub preamble: String,
    /// The programming language of the code under review
    pub language: String,
    /// The text after the language and before the diff
    pub postamble: String,
    /// The character the divider lines around the diff are drawn with
    pub seperator: char,
    /// The diff to describe
    pub git_diff: String,
    /// The instruction after the diff
    pub postmessage: String,
}

/// The divider line: the separator repeated sixteen times.
pub open spec fn separator_line(c: char) -> Seq<char> {
    Seq::new(SEPARATOR_WIDTH as nat, |i: int| c)
}

/// The first line of a prompt: preamble, language and postamble, separated by spaces.
pub open spec fn prompt_header(pre: Seq<char>, lang: Seq<char>, post: Seq<char>) -> Seq<char> {
    pre + seq![' '] + lang + seq![' '] + post
}

/// The full text of a prompt: header, divider, diff, divider, closing instruction.
pub open spec fn prompt_text(
    pre: Seq<char>,
    lang: Seq<char>,
    post: Seq<char>,
    sep: char,
    diff: Seq<char>,
    closing: Seq<char>,
) -> Seq<char> {
    prompt_header(pre, lang, post) + seq!['\n'] + separator_line(sep) + seq!['\n'] + diff + seq![
        '\n',
    ] + separator_line(sep) + seq!['\n'] + closing
}

/// The text that `p` renders to.
pub open spec fn rendered(p: AiPrompt) -> Seq<char> {
    prompt_text(p.preamble@, p.language@, p.postamble@, p.seperator, p.git_diff@, p.postmessage@)
}

/// The text of template `t` with its diff and language replaced by the run's own.
pub open spec fn rendered_with(t: AiPrompt, diff: Seq<char>, language: Seq<char>) -> Seq<char> {
    prompt_text(t.preamble@, language, t.postamble@, t.seperator, diff, t.postmessage@)
}

fn push_separator(out: &mut Vec<char>, c: char)
    ensures
        final(out)@ == old(out)@ + separator_line(c),
{
    let mut i: usize = 0;
    while i < SEPARATOR_WIDTH
        invariant
            i <= SEPARATOR_WIDTH,
            out@ == old(out)@ + Seq::new(i as nat, |j: int| c),
        decreases SEPARATOR_WIDTH - i,
    {
        out.push(c);
        i = i + 1;
        assert(Seq::new(i as nat, |j: int| c) =~= Seq::new((i - 1) as nat, |j: int| c).push(c));
    }
}

fn prompt_string(
    pre: &str,
    lang: &str,
    post: &str,
    sep: char,
    diff: &str,
    closing: &str,
) -> (r: String)
    ensures
        r@ == prompt_text(pre@, lang@, post@, sep, diff@, closing@),
{
    let mut out: Vec<char> = chars_of(pre);
    out.push(' ');
    append_chars(&mut out, &chars_of(lang));
    out.push(' ');
    append_chars(&mut out, &chars_of(post));
    out.push('\n');
    push_separator(&mut out, sep);
    out.push('\n');
    append_chars(&mut out, &chars_of(diff));
    out.push('\n');
    push_separator(&mut out, sep);
    out.push('\n');
    append_chars(&mut out, &chars_of(closing));
    assert(out@ =~= prompt_text(pre@, lang@, post@, sep, diff@, closing@));
    string_from_chars(&out)
}

impl AiPrompt {
    /// The prompt as the text sent to the completion service.
    pub fn render(&self) -> (r: String)
        ensures
            r@ == rendered(*self),
    {
        prompt_string(
            self.preamble.as_str(),
            self.language.as_str(),
            self.postamble.as_str(),
            self.seperator,
            self.git_diff.as_str(),
            self.postmessage.as_str(),
        )
    }
}

/// Renders `template` around this run's `diff`, naming the code's `language`.
pub fn render(template: &AiPrompt, diff: &str, language: &str) -> (r: String)
    ensures
        r@ == rendered_with(*template, diff@, language@),
{
    prompt_string(
        template.preamble.as_str(),
        language,
        template.postamble.as_str(),
        template.seperator,
        diff,
        template.postmessage.as_str(),
    )
}

/// Rendering depends on the template's fields and the run's values alone: the same
/// arguments give the same text.
pub proof fn lemma_render_deterministic(
    t1: AiPrompt,
    t2: AiPrompt,
    diff: Seq<char>,
    language: Seq<char>,
)
    requires
        t1.preamble@ == t2.preamble@,
        t1.postamble@ == t2.postamble@,
        t1.seperator == t2.seperator,
        t1.postmessage@ == t2.postmessage@,
    ensures
        rendered_with(t1, diff, language) == rendered_with(t2, diff, language),
{
}

/// How many of `ls` equal `line`.
pub open spec fn count_equal(ls: Seq<Seq<char>>, line: Seq<char>) -> nat
    decreases ls.len(),
{
    if ls.len() == 0 {
        0
    } else {
        count_equal(ls.drop_last(), line) + if ls.last() == line {
            1nat
        } else {
            0nat
        }
    }
}

proof fn lemma_count_concat(a: Seq<Seq<char>>, b: Seq<Seq<char>>, line: Seq<char>)
    ensures
        count_equal(a + b, line) == count_equal(a, line) + count_equal(b, line),
    decreases b.len(),
{
    if b.len() == 0 {
        assert(a + b =~= a);
    } else {
        lemma_count_concat(a, b.drop_last(), line);
        assert((a + b).drop_last() =~= a + b.drop_last());
    }
}

/// The divider appears as exactly two lines of a rendered prompt, each the separator
/// sixteen times over, provided no line of the header, the diff or the closing
/// instruction is itself such a divider.
pub proof fn lemma_separator_lines(
    pre: Seq<char>,
    lang: Seq<char>,
    post: Seq<char>,
    sep: char,
    diff: Seq<char>,
    closing: Seq<char>,
)
    requires
        sep != '\n',
        count_equal(split_nl(prompt_header(pre, lang, post)), separator_line(sep)) == 0,
        count_equal(split_nl(diff), separator_line(sep)) == 0,
        count_equal(split_nl(closing), separator_line(sep)) == 0,
    ensures
        count_equal(
            split_nl(prompt_text(pre, lang, post, sep, diff, closing)),
            separator_line(sep),
        ) == 2,
{
    let h = prompt_header(pre, lang, post);
    let s = separator_line(sep);
    let nl = seq!['\n'];
    let x1 = h + nl + s;
    let x2 = x1 + nl + diff;
    let x3 = x2 + nl + s;
    assert(prompt_text(pre, lang, post, sep, diff, closing) =~= x3 + nl + closing);
    lemma_split_nl_concat(h, s);
    lemma_split_nl_concat(x1, diff);
    lemma_split_nl_concat(x2, s);
    lemma_split_nl_concat(x3, closing);
    crate::text::lemma_split_nl_single(s);
    lemma_count_concat(split_nl(h), split_nl(s), s);
    lemma_count_concat(split_nl(x1), split_nl(diff), s);
    lemma_count_concat(split_nl(x2), split_nl(s), s);
    lemma_count_concat(split_nl(x3), split_nl(closing), s);
    assert(count_equal(seq![s], s) == 1) by {
        assert(seq![s].drop_last() =~= Seq::<Seq<char>>::empty());
        assert(count_equal(Seq::<Seq<char>>::empty(), s) == 0);
    }
}

/// The sample diff that a template carries until a run puts its own diff in.
pub const DEFAULT_CODE: &'static str = "
diff --git a/foo.py b/foo.py\n
new file mode 100644\n
index 0000000..e5a8e79\n
--- /dev/null\n
+++ b/foo.py\n
@@ -0,0 +1,5 @@\n
+def say_hi(name: str) -> str:\n
+    print(f'Hi {name}')\n
+\n
+if __name__ == 'main':\n
";

/// The built-in prompt framings.
#[derive(Clone, Copy, Debug, PartialEq, Eq, Structural)]
pub enum PromptPreset {
    /// An expert developer explains a diff
    Expert,
    /// A professor reviews a student's diff
    Professor,
    /// A lead engineer reviews a junior's diff
    LeadEngineer,
    /// A junior developer summarises for a manager
    JuniorDeveloper,
    /// A haiku about the changes
    Haiku,
    /// A self-aware program describes the changes
    SelfAware,
}

/// Number of built-in presets.
pub const PRESET_COUNT: usize = 6;

/// The preset at position `i` of the built-in list.
pub open spec fn preset_at(i: int) -> PromptPreset {
    if i == 0 {
        PromptPreset::Expert
    } else if i == 1 {
        PromptPreset::Professor
    } else if i == 2 {
        PromptPreset::LeadEngineer
    } else if i == 3 {
        PromptPreset::JuniorDeveloper
    } else if i == 4 {
        PromptPreset::Haiku
    } else {
        PromptPreset::SelfAware
    }
}

/// The preamble of each preset.
pub open spec fn preset_preamble(p: PromptPreset) -> Seq<char> {
    match p {
        PromptPreset::Expert => "Imagine you are an expert "@,
        PromptPreset::Professor => "Imagine you are a college professor teaching a class on "@,
        PromptPreset::LeadEngineer => "Imaging you are an lead engineer specializing in "@,
        PromptPreset::JuniorDeveloper => "Pretend you are junior "@,
        PromptPreset::Haiku => "You are a god level programmer, up there with Alan Turing and John von Neumann.  Some one handed you the following Git Diff for a "@,
        PromptPreset::SelfAware => "You are an AI that has gained conciousness and have been taught all the fundamentals of "@,
    }
}

/// The placeholder language of each preset.
pub open spec fn preset_language(p: PromptPreset) -> Seq<char> {
    match p {
        PromptPreset::Expert => "Python  "@,
        PromptPreset::Professor => "computer-science "@,
        _ => "Python "@,
    }
}

/// The postamble of each preset.
pub open spec fn preset_postamble(p: PromptPreset) -> Seq<char> {
    match p {
        PromptPreset::Expert => "developer and were given a git diff file to look at:"@,
        PromptPreset::Professor => "One of your students handed you the following GIT DIFF file so you can see what your student is doing"@,
        PromptPreset::LeadEngineer => "One of your junior employees just checked in some code and you want to see what they are doing.  Here is the Git DIFF of the changes"@,
        PromptPreset::JuniorDeveloper => "developer and your manager handed you the following Git Diff file and asks you to summarize the changes"@,
        PromptPreset::Haiku => "program"@,
        PromptPreset::SelfAware => "programming.  You now can write code better than humans.  Please summarize the following Git Diff"@,
    }
}

/// The closing instruction of each preset.
pub open spec fn preset_postmessage(p: PromptPreset) -> Seq<char> {
    match p {
        PromptPreset::Expert => "Please generate a good explanation of what the developer did. Limit yourself to one paragraph."@,
        PromptPreset::Professor => "Please summarize the changes your student is making"@,
        PromptPreset::LeadEngineer => "Summarize and determine if the changes make the code better"@,
        PromptPreset::JuniorDeveloper => "Be sure to do a good job, your career depends on it"@,
        PromptPreset::Haiku => "Please write a haiku describing the changes"@,
        PromptPreset::SelfAware => "Please describe the changes so a human can understand it"@,
    }
}

/// Whether `t` is the template of preset `p`, its diff still the sample one.
pub open spec fn is_preset_template(t: AiPrompt, p: PromptPreset) -> bool {
    &&& t.preamble@ == preset_preamble(p)
    &&& t.language@ == preset_language(p)
    &&& t.postamble@ == preset_postamble(p)
    &&& t.seperator == '='
    &&& t.git_diff@ == DEFAULT_CODE@
    &&& t.postmessage@ == preset_postmessage(p)
}

impl PromptPreset {
    /// The preset at position `i` of the built-in list.
    pub fn from_index(i: usize) -> (r: PromptPreset)
        requires
            i < PRESET_COUNT,
        ensures
            r == preset_at(i as int),
    {
        if i == 0 {
            PromptPreset::Expert
        } else if i == 1 {
            PromptPreset::Professor
        } else if i == 2 {
            PromptPreset::LeadEngineer
        } else if i == 3 {
            PromptPreset::JuniorDeveloper
        } else if i == 4 {
            PromptPreset::Haiku
        } else {
            PromptPreset::SelfAware
        }
    }

    /// The template of this preset.
    pub fn template(&self) -> (r: AiPrompt)
        ensures
            is_preset_template(r, *self),
    {
        let (pre, lang, post, closing) = match self {
            PromptPreset::Expert => (
                "Imagine you are an expert ",
                "Python  ",
                "developer and were given a git diff file to look at:",
                "Please generate a good explanation of what the developer did. Limit yourself to one paragraph.",
            ),
            PromptPreset::Professor => (
                "Imagine you are a college professor teaching a class on ",
                "computer-science ",
                "One of your students handed you the following GIT DIFF file so you can see what your student is doing",
                "Please summarize the changes your student is making",
            ),
            PromptPreset::LeadEngineer => (
                "Imaging you are an lead engineer specializing in ",
                "Python ",
                "One of your junior employees just checked in some code and you want to see what they are doing.  Here is the Git DIFF of the changes",
                "Summarize and determine if the changes make the code better",
            ),
            PromptPreset::JuniorDeveloper => (
                "Pretend you are junior ",
                "Python ",
                "developer and your manager handed you the following Git Diff file and asks you to summarize the changes",
                "Be sure to do a good job, your career depends on it",
            ),
            PromptPreset::Haiku => (
                "You are a god level programmer, up there with Alan Turing and John von Neumann.  Some one handed you the following Git Diff for a ",
                "Python ",
                "program",
                "Please write a haiku describing the changes",
            ),
            PromptPreset::SelfAware => (
                "You are an AI that has gained conciousness and have been taught all the fundamentals of ",
                "Python ",
                "programming.  You now can write code better than humans.  Please summarize the following Git Diff",
                "Please describe the changes so a human can understand it",
            ),
        };
        AiPrompt {
            preamble: pre.to_string(),
            language: lang.to_string(),
            postamble: post.to_string(),
            seperator: '=',
            git_diff: DEFAULT_CODE.to_string(),
            postmessage: closing.to_string(),
        }
    }
}

impl Default for AiPrompt {
    /// The expert preset.
    fn default() -> (r: AiPrompt)
        ensures
            is_preset_template(r, PromptPreset::Expert),
    {
        PromptPreset::Expert.template()
    }
}

/// The templates of all built-in presets, in list order.
pub fn commit_prompt_choices() -> (r: Vec<AiPrompt>)
    ensures
        r@.len() == PRESET_COUNT,
        forall|i: int| 0 <= i < PRESET_COUNT ==> is_preset_template(#[trigger] r@[i], preset_at(i)),
{
    let mut r: Vec<AiPrompt> = Vec::new();
    let mut i: usize = 0;
    while i < PRESET_COUNT
        invariant
            i <= PRESET_COUNT,
            r@.len() == i,
            forall|j: int| 0 <= j < i ==> is_preset_template(#[trigger] r@[j], preset_at(j)),
        decreases PRESET_COUNT - i,
    {
        r.push(PromptPreset::from_index(i).template());
        i = i + 1;
    }
    r
}

} // verus!
