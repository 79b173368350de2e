//! The system prompt: a `#` title, `##` sections and `###` sub-sections,
//! validated and rendered as markdown.
use vstd::prelude::*;
use vstd::string::*;

use crate::text::{
    chars_of, contains_char, is_blank, lemma_trim_ends_in_text, slice_chars, trim, trim_spec, trim_start,
    trim_start_spec,
};

verus! {

/// A leaf sub-section rendered as `### Title`, used for the entries of a
/// `##` group.
#[derive(Debug, Clone)]
pub struct SystemPromptSubSection {
    title: String,
    body: String,
}

pub struct SubSectionView {
    pub title: Seq<char>,
    pub body: Seq<char>,
}

impl View for SystemPromptSubSection {
    type V = SubSectionView;

    closed spec fn view(&self) -> SubSectionView {
        SubSectionView { title: self.title@, body: self.body@ }
    }
}

/// The content of a `##` section.
#[derive(Debug, Clone)]
pub enum SectionContent {
    /// A plain body.
    Body(String),
    /// Nested `###` sub-sections.
    SubSections(Vec<SystemPromptSubSection>),
}

pub enum SectionContentView {
    Body(Seq<char>),
    SubSections(Seq<SubSectionView>),
}

impl View for SectionContent {
    type V = SectionContentView;

    open spec fn view(&self) -> SectionContentView {
        match self {
            SectionContent::Body(b) => SectionContentView::Body(b@),
            SectionContent::SubSections(subs) => SectionContentView::SubSections(
                subs@.map_values(|s: SystemPromptSubSection| s@),
            ),
        }
    }
}

/// A section rendered as `## Title`.
#[derive(Debug, Clone)]
pub struct SystemPromptSection {
    title: String,
    content: SectionContent,
}

pub struct SectionView {
    pub title: Seq<char>,
    pub content: SectionContentView,
}

impl View for SystemPromptSection {
    type V = SectionView;

    closed spec fn view(&self) -> SectionView {
        SectionView { title: self.title@, content: self.content@ }
    }
}

/// The root system prompt: a `#` title followed by its sections.
#[derive(Debug, Clone)]
pub struct SystemPrompt {
    title: String,
    sections: Vec<SystemPromptSection>,
}

pub struct SystemPromptView {
    pub title: Seq<char>,
    pub sections: Seq<SectionView>,
}

impl View for SystemPrompt {
    type V = SystemPromptView;

    closed spec fn view(&self) -> SystemPromptView {
        SystemPromptView {
            title: self.title@,
            sections: self.sections@.map_values(|s: SystemPromptSection| s@),
        }
    }
}

/// Why a part of the system prompt was rejected.
#[derive(Debug, Clone)]
pub enum PromptError {
    SubSectionEmptyTitle,
    SubSectionMultilineTitle,
    SubSectionHashTitle,
    SubSectionEmptyBody,
    SectionEmptyTitle,
    SectionMultilineTitle,
    SectionHashTitle,
    SectionEmptyBody { title: String },
}

pub enum PromptErrorView {
    SubSectionEmptyTitle,
    SubSectionMultilineTitle,
    SubSectionHashTitle,
    SubSectionEmptyBody,
    SectionEmptyTitle,
    SectionMultilineTitle,
    SectionHashTitle,
    SectionEmptyBody { title: Seq<char> },
}

impl View for PromptError {
    type V = PromptErrorView;

    open spec fn view(&self) -> PromptErrorView {
        match self {
            PromptError::SubSectionEmptyTitle => PromptErrorView::SubSectionEmptyTitle,
            PromptError::SubSectionMultilineTitle => PromptErrorView::SubSectionMultilineTitle,
            PromptError::SubSectionHashTitle => PromptErrorView::SubSectionHashTitle,
            PromptError::SubSectionEmptyBody => PromptErrorView::SubSectionEmptyBody,
            PromptError::SectionEmptyTitle => PromptErrorView::SectionEmptyTitle,
            PromptError::SectionMultilineTitle => PromptErrorView::SectionMultilineTitle,
            PromptError::SectionHashTitle => PromptErrorView::SectionHashTitle,
            PromptError::SectionEmptyBody { title } => PromptErrorView::SectionEmptyBody {
                title: title@,
            },
        }
    }
}

/// The text of an error.
pub open spec fn error_message(e: PromptErrorView) -> Seq<char> {
    match e {
        PromptErrorView::SubSectionEmptyTitle => "system prompt sub-section title cannot be empty"@,
        PromptErrorView::SubSectionMultilineTitle => "system prompt sub-section title must be a single line"@,
        PromptErrorView::SubSectionHashTitle => "system prompt sub-section title must not start with '#'"@,
        PromptErrorView::SubSectionEmptyBody => "system prompt sub-section body cannot be empty"@,
        PromptErrorView::SectionEmptyTitle => "system prompt section title cannot be empty"@,
        PromptErrorView::SectionMultilineTitle => "system prompt section title must be a single line"@,
        PromptErrorView::SectionHashTitle => "system prompt section title must not start with '#'"@,
        PromptErrorView::SectionEmptyBody { title } => "system prompt section '"@ + title
            + "' body cannot be empty"@,
    }
}

impl PromptError {
    /// The human-readable text of the error.
    pub fn message(&self) -> (r: String)
        ensures
            r@ == error_message(self@),
    {
        match self {
            PromptError::SubSectionEmptyTitle => "system prompt sub-section title cannot be empty".to_owned(),
            PromptError::SubSectionMultilineTitle => "system prompt sub-section title must be a single line".to_owned(),
            PromptError::SubSectionHashTitle => "system prompt sub-section title must not start with '#'".to_owned(),
            PromptError::SubSectionEmptyBody => "system prompt sub-section body cannot be empty".to_owned(),
            PromptError::SectionEmptyTitle => "system prompt section title cannot be empty".to_owned(),
            PromptError::SectionMultilineTitle => "system prompt section title must be a single line".to_owned(),
            PromptError::SectionHashTitle => "system prompt section title must not start with '#'".to_owned(),
            PromptError::SectionEmptyBody { title } => {
                let mut m = "system prompt section '".to_owned();
                m.append(title.as_str());
                m.append("' body cannot be empty");
                m
            },
        }
    }
}

/// `s`, after its leading whitespace, begins with `#`.
pub open spec fn starts_with_hash(s: Seq<char>) -> bool {
    trim_start_spec(s).len() > 0 && trim_start_spec(s)[0] == '#'
}

/// The first failed check on a heading title, as a (blank, multi-line,
/// `#`-prefixed) triple of errors.
pub open spec fn title_error(
    title: Seq<char>,
    blank: PromptErrorView,
    multiline: PromptErrorView,
    hash: PromptErrorView,
) -> Option<PromptErrorView> {
    if trim_spec(title).len() == 0 {
        Some(blank)
    } else if title.contains('\n') {
        Some(multiline)
    } else if starts_with_hash(title) {
        Some(hash)
    } else {
        None
    }
}

/// The first failed check on a sub-section, or `None` when it is valid.
pub open spec fn sub_section_error(v: SubSectionView) -> Option<PromptErrorView> {
    match title_error(
        v.title,
        PromptErrorView::SubSectionEmptyTitle,
        PromptErrorView::SubSectionMultilineTitle,
        PromptErrorView::SubSectionHashTitle,
    ) {
        Some(e) => Some(e),
        None => if trim_spec(v.body).len() == 0 {
            Some(PromptErrorView::SubSectionEmptyBody)
        } else {
            None
        },
    }
}

/// The error of the first invalid sub-section, in order.
pub open spec fn first_sub_section_error(subs: Seq<SubSectionView>) -> Option<PromptErrorView>
    decreases subs.len(),
{
    if subs.len() == 0 {
        None
    } else {
        match sub_section_error(subs[0]) {
            Some(e) => Some(e),
            None => first_sub_section_error(subs.drop_first()),
        }
    }
}

/// The first failed check on a section, or `None` when it is valid.
pub open spec fn section_error(v: SectionView) -> Option<PromptErrorView> {
    match title_error(
        v.title,
        PromptErrorView::SectionEmptyTitle,
        PromptErrorView::SectionMultilineTitle,
        PromptErrorView::SectionHashTitle,
    ) {
        Some(e) => Some(e),
        None => match v.content {
            SectionContentView::Body(b) => if trim_spec(b).len() == 0 {
                Some(PromptErrorView::SectionEmptyBody { title: v.title })
            } else {
                None
            },
            SectionContentView::SubSections(subs) => first_sub_section_error(subs),
        },
    }
}

/// A group of sub-sections has no error exactly when each sub-section is valid.
pub proof fn lemma_first_sub_section_error_none(subs: Seq<SubSectionView>)
    ensures
        first_sub_section_error(subs) is None <==> forall|i: int|
            0 <= i < subs.len() ==> #[trigger] sub_section_error(subs[i]) is None,
    decreases subs.len(),
{
    if subs.len() > 0 {
        lemma_first_sub_section_error_none(subs.drop_first());
        if sub_section_error(subs[0]) is None {
            assert forall|i: int| 0 <= i < subs.len() && first_sub_section_error(subs) is None
                implies #[trigger] sub_section_error(subs[i]) is None by {
                if i > 0 {
                    assert(subs[i] == subs.drop_first()[i - 1]);
                }
            }
            assert forall|i: int|
                1 <= i < subs.len() && (forall|j: int|
                    0 <= j < subs.len() ==> #[trigger] sub_section_error(subs[j]) is None)
                implies #[trigger] sub_section_error(subs.drop_first()[i - 1]) is None by {
                assert(subs.drop_first()[i - 1] == subs[i]);
            }
            if forall|j: int| 0 <= j < subs.len() ==> #[trigger] sub_section_error(subs[j]) is None {
                assert forall|k: int| 0 <= k < subs.drop_first().len() implies
                    #[trigger] sub_section_error(subs.drop_first()[k]) is None by {
                    assert(subs.drop_first()[k] == subs[k + 1]);
                }
            }
        }
    }
}

fn check_title(
    title: &String,
    blank: PromptError,
    multiline: PromptError,
    hash: PromptError,
) -> (r: Result<(), PromptError>)
    ensures
        match title_error(title@, blank@, multiline@, hash@) {
            Some(e) => r matches Err(x) && x@ == e,
            None => r is Ok,
        },
{
    if is_blank(title.as_str()) {
        return Err(blank);
    }
    if contains_char(title.as_str(), '\n') {
        return Err(multiline);
    }
    let t = trim_start(title.as_str());
    let tv = chars_of(t.as_str());
    if tv.len() > 0 && tv[0] == '#' {
        return Err(hash);
    }
    Ok(())
}

fn validate_sub_sections(subs: &Vec<SystemPromptSubSection>) -> (r: Result<(), PromptError>)
    ensures
        match first_sub_section_error(subs@.map_values(|s: SystemPromptSubSection| s@)) {
            Some(e) => r matches Err(x) && x@ == e,
            None => r is Ok,
        },
{
    let ghost sv = subs@.map_values(|s: SystemPromptSubSection| s@);
    assert(sv.skip(0) =~= sv);
    let mut i: usize = 0;
    while i < subs.len()
        invariant
            sv == subs@.map_values(|s: SystemPromptSubSection| s@),
            i <= subs.len(),
            first_sub_section_error(sv) == first_sub_section_error(sv.skip(i as int)),
        decreases subs.len() - i,
    {
        assert(sv.skip(i as int)[0] == sv[i as int]);
        assert(sv.skip(i as int).drop_first() =~= sv.skip(i + 1));
        subs[i].validate()?;
        i = i + 1;
    }
    assert(sv.skip(i as int) =~= Seq::<SubSectionView>::empty());
    Ok(())
}

impl SystemPromptSubSection {
    pub fn new(title: String, body: String) -> (r: Self)
        ensures
            r@ == (SubSectionView { title: title@, body: body@ }),
    {
        Self { title, body }
    }

    pub fn title(&self) -> (r: &str)
        ensures
            r@ == self@.title,
    {
        self.title.as_str()
    }

    pub fn body(&self) -> (r: &str)
        ensures
            r@ == self@.body,
    {
        self.body.as_str()
    }

    /// Checks, in order, that the title is not blank, is a single line and
    /// does not start with `#`, and that the body is not blank.
    pub fn validate(&self) -> (r: Result<(), PromptError>)
        ensures
            match sub_section_error(self@) {
                Some(e) => r matches Err(x) && x@ == e,
                None => r is Ok,
            },
    {
        check_title(
            &self.title,
            PromptError::SubSectionEmptyTitle,
            PromptError::SubSectionMultilineTitle,
            PromptError::SubSectionHashTitle,
        )?;
        if is_blank(self.body.as_str()) {
            return Err(PromptError::SubSectionEmptyBody);
        }
        Ok(())
    }
}

impl SystemPromptSection {
    pub fn new(title: String, content: SectionContent) -> (r: Self)
        ensures
            r@ == (SectionView { title: title@, content: content@ }),
    {
        Self { title, content }
    }

    pub fn title(&self) -> (r: &str)
        ensures
            r@ == self@.title,
    {
        self.title.as_str()
    }

    pub fn content(&self) -> (r: &SectionContent)
        ensures
            r@ == self@.content,
    {
        &self.content
    }

    /// Checks the title as a sub-section's is checked, then a body for
    /// blankness or each sub-section in order.
    pub fn validate(&self) -> (r: Result<(), PromptError>)
        ensures
            match section_error(self@) {
                Some(e) => r matches Err(x) && x@ == e,
                None => r is Ok,
            },
            self@.content matches SectionContentView::SubSections(subs) ==> (r is Ok <==> (
            title_error(
                self@.title,
                PromptErrorView::SectionEmptyTitle,
                PromptErrorView::SectionMultilineTitle,
                PromptErrorView::SectionHashTitle,
            ) is None && forall|i: int|
                0 <= i < subs.len() ==> #[trigger] sub_section_error(subs[i]) is None)),
    {
        proof {
            if let SectionContentView::SubSections(subs) = self@.content {
                lemma_first_sub_section_error_none(subs);
            }
        }
        check_title(
            &self.title,
            PromptError::SectionEmptyTitle,
            PromptError::SectionMultilineTitle,
            PromptError::SectionHashTitle,
        )?;
        match &self.content {
            SectionContent::Body(body) => {
                if is_blank(body.as_str()) {
                    return Err(PromptError::SectionEmptyBody { title: self.title.clone() });
                }
            },
            SectionContent::SubSections(subs) => {
                validate_sub_sections(subs)?;
            },
        }
        Ok(())
    }
}

/// The markdown text of one sub-section.
pub open spec fn sub_section_text(v: SubSectionView) -> Seq<char> {
    "\n### "@ + trim_spec(v.title) + "\n\n"@ + trim_spec(v.body) + "\n"@
}

/// The markdown text of a run of sub-sections.
pub open spec fn sub_sections_text(subs: Seq<SubSectionView>) -> Seq<char>
    decreases subs.len(),
{
    if subs.len() == 0 {
        Seq::empty()
    } else {
        sub_sections_text(subs.drop_last()) + sub_section_text(subs.last())
    }
}

/// The markdown text of one section.
pub open spec fn section_text(v: SectionView) -> Seq<char> {
    "\n## "@ + trim_spec(v.title) + "\n"@ + match v.content {
        SectionContentView::Body(b) => "\n"@ + trim_spec(b) + "\n"@,
        SectionContentView::SubSections(subs) => sub_sections_text(subs),
    }
}

/// The markdown text of a run of sections.
pub open spec fn sections_text(secs: Seq<SectionView>) -> Seq<char>
    decreases secs.len(),
{
    if secs.len() == 0 {
        Seq::empty()
    } else {
        sections_text(secs.drop_last()) + section_text(secs.last())
    }
}

/// The text before trailing blank lines are folded into one newline.
pub open spec fn raw_render(v: SystemPromptView) -> Seq<char> {
    "# "@ + trim_spec(v.title) + "\n"@ + sections_text(v.sections)
}

/// `s` with each trailing run of newlines cut down to one.
pub open spec fn fold_trailing_newlines(s: Seq<char>) -> Seq<char>
    decreases s.len(),
{
    if s.len() >= 2 && s[s.len() - 1] == '\n' && s[s.len() - 2] == '\n' {
        fold_trailing_newlines(s.drop_last())
    } else {
        s
    }
}

/// The rendered prompt: the raw text with its trailing newlines folded to
/// exactly one.
pub open spec fn render_spec(v: SystemPromptView) -> Seq<char> {
    let f = fold_trailing_newlines(raw_render(v));
    if f.len() > 0 && f[f.len() - 1] != '\n' {
        f.push('\n')
    } else {
        f
    }
}

/// Folding trailing newlines keeps a text's last character, leaves no two
/// newlines at its end, and never lengthens it.
pub proof fn lemma_fold_keeps_last(s: Seq<char>)
    requires
        s.len() > 0,
    ensures
        fold_trailing_newlines(s).len() > 0,
        fold_trailing_newlines(s)[fold_trailing_newlines(s).len() - 1] == s[s.len() - 1],
        !(fold_trailing_newlines(s).len() >= 2 && fold_trailing_newlines(s)[fold_trailing_newlines(s).len() - 1] == '\n'
            && fold_trailing_newlines(s)[fold_trailing_newlines(s).len() - 2] == '\n'),
        fold_trailing_newlines(s).len() <= s.len(),
        fold_trailing_newlines(s) == s.take(fold_trailing_newlines(s).len() as int),
    decreases s.len(),
{
    if s.len() >= 2 && s[s.len() - 1] == '\n' && s[s.len() - 2] == '\n' {
        lemma_fold_keeps_last(s.drop_last());
        let f = fold_trailing_newlines(s.drop_last());
        assert(f == s.drop_last().take(f.len() as int));
        assert(s.drop_last().take(f.len() as int) == s.take(f.len() as int));
    } else {
        assert(s.take(s.len() as int) == s);
    }
}

/// Folding trailing newlines stops at a character that is no newline: it
/// keeps that character and, where there is one, the character after it.
proof fn lemma_fold_stops_at(s: Seq<char>, m: int)
    requires
        0 <= m < s.len(),
        s[m] != '\n',
    ensures
        fold_trailing_newlines(s).len() >= if s.len() > m + 1 {
            m + 2
        } else {
            s.len() as int
        },
    decreases s.len(),
{
    if s.len() >= 2 && s[s.len() - 1] == '\n' && s[s.len() - 2] == '\n' {
        lemma_fold_stops_at(s.drop_last(), m);
    }
}

/// A rendered prompt begins with its title line, `# ` and the trimmed title
/// and a newline, and ends with exactly one newline.
pub proof fn lemma_render_shape(v: SystemPromptView)
    ensures
        render_spec(v).len() >= ("# "@ + trim_spec(v.title) + "\n"@).len(),
        render_spec(v).take(("# "@ + trim_spec(v.title) + "\n"@).len() as int) == "# "@ + trim_spec(v.title)
            + "\n"@,
        render_spec(v).len() > 0,
        render_spec(v)[render_spec(v).len() - 1] == '\n',
        !(render_spec(v).len() >= 2 && render_spec(v)[render_spec(v).len() - 2] == '\n'),
{
    reveal_strlit("# ");
    reveal_strlit("\n");
    let t = trim_spec(v.title);
    let p = "# "@ + t + "\n"@;
    let raw = raw_render(v);
    assert(raw == p + sections_text(v.sections));
    let m: int = (t.len() + 1) as int;
    if t.len() > 0 {
        lemma_trim_ends_in_text(v.title);
        assert(raw[m] == t[t.len() - 1]);
    } else {
        assert(raw[m] == ' ');
    }
    lemma_fold_stops_at(raw, m);
    lemma_fold_keeps_last(raw);
    let f = fold_trailing_newlines(raw);
    assert(f.take(p.len() as int) =~= p) by {
        assert forall|i: int| 0 <= i < p.len() implies f.take(p.len() as int)[i] == p[i] by {
            assert(f[i] == raw.take(f.len() as int)[i]);
        }
    }
    if f.len() > 0 && f[f.len() - 1] != '\n' {
        assert(f.push('\n').take(p.len() as int) =~= f.take(p.len() as int));
    }
}

impl SystemPrompt {
    pub fn new(title: String, sections: Vec<SystemPromptSection>) -> (r: Self)
        ensures
            r@ == (SystemPromptView {
                title: title@,
                sections: sections@.map_values(|s: SystemPromptSection| s@),
            }),
    {
        Self { title, sections }
    }

    pub fn title(&self) -> (r: &str)
        ensures
            r@ == self@.title,
    {
        self.title.as_str()
    }

    pub fn sections(&self) -> (r: &[SystemPromptSection])
        ensures
            r@.map_values(|s: SystemPromptSection| s@) == self@.sections,
    {
        self.sections.as_slice()
    }

    /// Consumes the prompt and returns its sections.
    pub fn into_sections(self) -> (r: Vec<SystemPromptSection>)
        ensures
            r@.map_values(|s: SystemPromptSection| s@) == self@.sections,
    {
        self.sections
    }

    /// Renders the prompt as markdown: `# title`, then for each section a
    /// blank line and `## title`, followed by its body or its `### ` sub-sections;
    /// titles and bodies are trimmed, and the text ends with exactly one newline.
    pub fn render(&self) -> (r: String)
        ensures
            r@ == render_spec(self@),
            r@.len() > 0 && r@[r@.len() - 1] == '\n',
            !(r@.len() >= 2 && r@[r@.len() - 2] == '\n'),
    {
        let ghost secs = self.sections@.map_values(|s: SystemPromptSection| s@);
        let mut buf = String::new();
        buf.append("# ");
        let t = trim(self.title.as_str());
        buf.append(t.as_str());
        buf.append("\n");
        proof {
            reveal_strlit("# ");
            reveal_strlit("\n");
            assert(secs.take(0) =~= Seq::<SectionView>::empty());
        }
        let mut i: usize = 0;
        while i < self.sections.len()
            invariant
                secs == self.sections@.map_values(|s: SystemPromptSection| s@),
                i <= self.sections.len(),
                buf@ == "# "@ + trim_spec(self.title@) + "\n"@ + sections_text(secs.take(i as int)),
            decreases self.sections.len() - i,
        {
            append_section(&mut buf, &self.sections[i]);
            proof {
                assert(secs.take(i + 1).drop_last() =~= secs.take(i as int));
                assert(secs.take(i + 1).last() == secs[i as int]);
            }
            i = i + 1;
        }
        proof {
            assert(secs.take(self.sections.len() as int) =~= secs);
        }
        fold_newlines(buf)
    }
}

fn append_sub_sections(buf: &mut String, subs: &Vec<SystemPromptSubSection>)
    ensures
        final(buf)@ == old(buf)@ + sub_sections_text(
            subs@.map_values(|s: SystemPromptSubSection| s@),
        ),
{
    let ghost sv = subs@.map_values(|s: SystemPromptSubSection| s@);
    let ghost head = buf@;
    assert(sv.take(0) =~= Seq::<SubSectionView>::empty());
    assert(head + Seq::<char>::empty() =~= head);
    let mut j: usize = 0;
    while j < subs.len()
        invariant
            sv == subs@.map_values(|s: SystemPromptSubSection| s@),
            j <= subs.len(),
            buf@ == head + sub_sections_text(sv.take(j as int)),
        decreases subs.len() - j,
    {
        let ghost before = buf@;
        let sub = &subs[j];
        buf.append("\n### ");
        let stt = trim(sub.title.as_str());
        buf.append(stt.as_str());
        buf.append("\n\n");
        let sb = trim(sub.body.as_str());
        buf.append(sb.as_str());
        buf.append("\n");
        proof {
            assert(buf@ =~= before + sub_section_text(sv[j as int]));
            assert(sv.take(j + 1).drop_last() =~= sv.take(j as int));
            assert(sv.take(j + 1).last() == sv[j as int]);
        }
        j = j + 1;
    }
    assert(sv.take(subs.len() as int) =~= sv);
}

fn append_section(buf: &mut String, section: &SystemPromptSection)
    ensures
        final(buf)@ == old(buf)@ + section_text(section@),
{
    let ghost before = buf@;
    buf.append("\n## ");
    let st = trim(section.title.as_str());
    buf.append(st.as_str());
    buf.append("\n");
    let ghost mid = buf@;
    match &section.content {
        SectionContent::Body(body) => {
            buf.append("\n");
            let b = trim(body.as_str());
            buf.append(b.as_str());
            buf.append("\n");
        },
        SectionContent::SubSections(subs) => {
            append_sub_sections(buf, subs);
        },
    }
    assert(buf@ =~= before + section_text(section@));
}

/// Cuts the trailing run of newlines of a rendered text down to one.
fn fold_newlines(buf: String) -> (r: String)
    requires
        buf@.len() > 0,
        buf@[buf@.len() - 1] == '\n',
    ensures
        r@ == (if fold_trailing_newlines(buf@).len() > 0 && fold_trailing_newlines(buf@)[
            fold_trailing_newlines(buf@).len() - 1] != '\n' {
            fold_trailing_newlines(buf@).push('\n')
        } else {
            fold_trailing_newlines(buf@)
        }),
        r@.len() > 0 && r@[r@.len() - 1] == '\n',
        !(r@.len() >= 2 && r@[r@.len() - 2] == '\n'),
{
    let ghost raw = buf@;
    let v = chars_of(buf.as_str());
    let mut k: usize = v.len();
    assert(raw.take(k as int) =~= raw);
    while k >= 2 && v[k - 1] == '\n' && v[k - 2] == '\n'
        invariant
            v@ == raw,
            k <= v.len(),
            fold_trailing_newlines(raw) == fold_trailing_newlines(raw.take(k as int)),
        decreases k,
    {
        assert(raw.take(k as int).drop_last() =~= raw.take(k - 1));
        k = k - 1;
    }
    proof {
        lemma_fold_keeps_last(raw);
        assert(fold_trailing_newlines(raw.take(k as int)) == raw.take(k as int));
    }
    let out = slice_chars(buf.as_str(), 0, k);
    assert(raw.subrange(0, k as int) =~= raw.take(k as int));
    out
}

} // verus!
