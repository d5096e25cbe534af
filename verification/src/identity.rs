use vstd::prelude::*;
use vstd::string::StringExecFns;
use vstd::string::StrSliceExecFns;
use crate::errors::Error;
use crate::errors::ErrorView;

verus! {

/// An optional text as an optional sequence of characters.
pub open spec fn text_of(value: Option<String>) -> Option<Seq<char>> {
    match value {
        Some(text) => Some(text@),
        None => None,
    }
}

/// The texts of a list of optional values.
pub open spec fn texts_of(values: Seq<Option<String>>) -> Seq<Option<Seq<char>>> {
    values.map_values(|value: Option<String>| text_of(value))
}

/// Whether the character has the property `White_Space` of the Unicode
/// character database: the controls from tab to carriage return, the
/// space, next line, the no-break space, the ogham space mark, the spaces
/// from en quad to hair space, the line and the paragraph separator, the
/// narrow no-break space, the medium mathematical space and the
/// ideographic space.
pub open spec fn white_space(c: char) -> bool {
    let code = c as u32;
    ||| 0x09 <= code <= 0x0D
    ||| code == 0x20
    ||| code == 0x85
    ||| code == 0xA0
    ||| code == 0x1680
    ||| 0x2000 <= code <= 0x200A
    ||| code == 0x2028
    ||| code == 0x2029
    ||| code == 0x202F
    ||| code == 0x205F
    ||| code == 0x3000
}

/// `char::is_whitespace`: whether the character has the property
/// `White_Space` of the Unicode character database.
#[verifier::external_body]
fn is_whitespace(c: char) -> (yes: bool)
    ensures
        yes == white_space(c),
{
    c.is_whitespace()
}

/// The text without the white space at its start.
pub open spec fn trimmed_start(text: Seq<char>) -> Seq<char>
    decreases text.len(),
{
    if text.len() > 0 && white_space(text[0]) {
        trimmed_start(text.drop_first())
    } else {
        text
    }
}

/// The text without the white space at its end.
pub open spec fn trimmed_end(text: Seq<char>) -> Seq<char>
    decreases text.len(),
{
    if text.len() > 0 && white_space(text.last()) {
        trimmed_end(text.drop_last())
    } else {
        text
    }
}

/// The text without the white space that surrounds it.
pub open spec fn trimmed(text: Seq<char>) -> Seq<char> {
    trimmed_end(trimmed_start(text))
}

/// A text of white space alone trims to nothing.
pub proof fn lemma_trimmed_blank(text: Seq<char>)
    requires
        forall|i: int| 0 <= i < text.len() ==> white_space(#[trigger] text[i]),
    ensures
        trimmed(text) == Seq::<char>::empty(),
    decreases text.len(),
{
    if text.len() > 0 {
        let rest = text.drop_first();
        assert forall|i: int| 0 <= i < rest.len() implies white_space(#[trigger] rest[i]) by {
            assert(rest[i] == text[i + 1]);
        }
        lemma_trimmed_blank(rest);
    } else {
        assert(text =~= Seq::empty());
    }
}

/// Trimming leaves the part of the text from its first to its last
/// character that is no white space.
pub proof fn lemma_trimmed_is(text: Seq<char>, from: int, to: int)
    requires
        0 <= from < to <= text.len(),
        forall|i: int| 0 <= i < from ==> white_space(#[trigger] text[i]),
        forall|i: int| to <= i < text.len() ==> white_space(#[trigger] text[i]),
        !white_space(text[from]),
        !white_space(text[to - 1]),
    ensures
        trimmed(text) == text.subrange(from, to),
{
    lemma_trimmed_start_is(text, from);
    lemma_trimmed_end_is(text.skip(from), to - from);
    assert(text.skip(from).take(to - from) =~= text.subrange(from, to));
}

proof fn lemma_trimmed_start_is(text: Seq<char>, from: int)
    requires
        0 <= from < text.len(),
        forall|i: int| 0 <= i < from ==> white_space(#[trigger] text[i]),
        !white_space(text[from]),
    ensures
        trimmed_start(text) == text.skip(from),
    decreases from,
{
    if from == 0 {
        assert(text.skip(0) =~= text);
    } else {
        let rest = text.drop_first();
        assert(white_space(text[0]));
        assert forall|i: int| 0 <= i < from - 1 implies white_space(#[trigger] rest[i]) by {
            assert(rest[i] == text[i + 1]);
        }
        lemma_trimmed_start_is(rest, from - 1);
        assert(rest.skip(from - 1) =~= text.skip(from));
    }
}

proof fn lemma_trimmed_end_is(text: Seq<char>, to: int)
    requires
        0 < to <= text.len(),
        forall|i: int| to <= i < text.len() ==> white_space(#[trigger] text[i]),
        !white_space(text[to - 1]),
    ensures
        trimmed_end(text) == text.take(to),
    decreases text.len() - to,
{
    if to == text.len() {
        assert(text.take(to) =~= text);
    } else {
        let rest = text.drop_last();
        assert(white_space(text[text.len() - 1]));
        lemma_trimmed_end_is(rest, to);
        assert(rest.take(to) =~= text.take(to));
    }
}

/// A trimmed text neither starts nor ends in white space, and trimming it
/// again changes nothing.
pub proof fn lemma_trimmed_has_no_margin(text: Seq<char>)
    ensures
        trimmed(text).len() > 0 ==> !white_space(trimmed(text)[0]) && !white_space(
            trimmed(text).last(),
        ),
        trimmed(trimmed(text)) == trimmed(text),
{
    lemma_trimmed_start_has_no_margin(text);
    lemma_trimmed_end_has_no_margin(trimmed_start(text));
    let once = trimmed(text);
    if once.len() > 0 {
        lemma_trimmed_end_keeps_start(trimmed_start(text));
        assert(trimmed_start(once) == once);
        assert(trimmed_end(once) == once);
    } else {
        assert(trimmed_start(once) == once);
    }
}

proof fn lemma_trimmed_start_has_no_margin(text: Seq<char>)
    ensures
        trimmed_start(text).len() > 0 ==> !white_space(trimmed_start(text)[0]),
    decreases text.len(),
{
    if text.len() > 0 && white_space(text[0]) {
        lemma_trimmed_start_has_no_margin(text.drop_first());
    }
}

proof fn lemma_trimmed_end_has_no_margin(text: Seq<char>)
    ensures
        trimmed_end(text).len() > 0 ==> !white_space(trimmed_end(text).last()),
    decreases text.len(),
{
    if text.len() > 0 && white_space(text.last()) {
        lemma_trimmed_end_has_no_margin(text.drop_last());
    }
}

proof fn lemma_trimmed_end_keeps_start(text: Seq<char>)
    ensures
        trimmed_end(text).len() > 0 ==> text.len() > 0 && trimmed_end(text)[0] == text[0],
    decreases text.len(),
{
    if text.len() > 0 && white_space(text.last()) {
        lemma_trimmed_end_keeps_start(text.drop_last());
    }
}

/// The text without the white space that surrounds it.
pub fn trim(text: &str) -> (out: String)
    ensures
        out@ == trimmed(text@),
{
    let length = text.unicode_len();
    let mut index: usize = 0;
    let mut from: usize = 0;
    let mut to: usize = 0;
    for c in it: text.chars()
        invariant
            it.seq() == text@,
            index == it.index(),
            text@.len() == length,
            from <= to <= index,
            forall|i: int| 0 <= i < from ==> white_space(#[trigger] text@[i]),
            forall|i: int| to <= i < index ==> white_space(#[trigger] text@[i]),
            from < to ==> !white_space(text@[from as int]) && !white_space(text@[to - 1]),
            from == to ==> from == index,
    {
        if is_whitespace(c) {
            if from == to {
                from = index + 1;
                to = index + 1;
            }
        } else {
            to = index + 1;
        }
        index = index + 1;
    }
    if from < to {
        proof {
            lemma_trimmed_is(text@, from as int, to as int);
        }
        String::from_str(text.substring_char(from, to))
    } else {
        proof {
            lemma_trimmed_blank(text@);
        }
        String::new()
    }
}

/// An author as a manifest lists one: `name`, or `name <email>`.
pub open spec fn author_line(name: Seq<char>, email: Option<Seq<char>>) -> Seq<char> {
    match email {
        Some(address) => name + " <"@ + address + ">"@,
        None => name,
    }
}

/// Formats an author for the manifest's list of authors.
pub fn format_author(author_name: &str, author_email: &Option<String>) -> (line: String)
    ensures
        line@ == author_line(author_name@, text_of(*author_email)),
{
    let mut line = String::from_str(author_name);
    match author_email {
        Some(email) => {
            line.append(" <");
            line.append(email.as_str());
            line.append(">");
        },
        None => {},
    }
    line
}

/// Where a part of the author's identity may be found.
#[derive(Debug, Clone, Copy)]
pub enum Source {
    /// The environment variable of this name.
    Variable(&'static str),
    /// The setting of this key in the version-control configuration.
    VcsSetting(&'static str),
}

/// A [`Source`] with its text as a sequence of characters.
pub enum SourceView {
    Variable(Seq<char>),
    VcsSetting(Seq<char>),
}

impl View for Source {
    type V = SourceView;

    open spec fn view(&self) -> SourceView {
        match *self {
            Source::Variable(name) => SourceView::Variable(name@),
            Source::VcsSetting(key) => SourceView::VcsSetting(key@),
        }
    }
}

/// The variable that holds the login name on this family of systems.
pub open spec fn login_variable(windows: bool) -> Seq<char> {
    if windows {
        "USERNAME"@
    } else {
        "USER"@
    }
}

/// Where the author's name is looked for, first to last.
pub open spec fn name_chain(windows: bool) -> Seq<SourceView> {
    seq![
        SourceView::Variable("CARGO_NAME"@),
        SourceView::Variable("GIT_AUTHOR_NAME"@),
        SourceView::Variable("GIT_COMMITTER_NAME"@),
        SourceView::VcsSetting("user.name"@),
        SourceView::Variable(login_variable(windows)),
        SourceView::Variable("NAME"@),
    ]
}

/// Where the author's email address is looked for, first to last.
pub open spec fn email_chain() -> Seq<SourceView> {
    seq![
        SourceView::Variable("CARGO_EMAIL"@),
        SourceView::Variable("GIT_AUTHOR_EMAIL"@),
        SourceView::Variable("GIT_COMMITTER_EMAIL"@),
        SourceView::VcsSetting("user.email"@),
        SourceView::Variable("EMAIL"@),
    ]
}

/// The sources of the author's name, in the order of their precedence.
/// `windows` says which family of systems the run is on.
pub fn name_sources(windows: bool) -> (sources: Vec<Source>)
    ensures
        sources@.map_values(|source: Source| source@) == name_chain(windows),
{
    let mut sources: Vec<Source> = Vec::new();
    sources.push(Source::Variable("CARGO_NAME"));
    sources.push(Source::Variable("GIT_AUTHOR_NAME"));
    sources.push(Source::Variable("GIT_COMMITTER_NAME"));
    sources.push(Source::VcsSetting("user.name"));
    if windows {
        sources.push(Source::Variable("USERNAME"));
    } else {
        sources.push(Source::Variable("USER"));
    }
    sources.push(Source::Variable("NAME"));
    assert(sources@.map_values(|source: Source| source@) =~= name_chain(windows));
    sources
}

/// The sources of the author's email address, in the order of their
/// precedence.
pub fn email_sources() -> (sources: Vec<Source>)
    ensures
        sources@.map_values(|source: Source| source@) == email_chain(),
{
    let mut sources: Vec<Source> = Vec::new();
    sources.push(Source::Variable("CARGO_EMAIL"));
    sources.push(Source::Variable("GIT_AUTHOR_EMAIL"));
    sources.push(Source::Variable("GIT_COMMITTER_EMAIL"));
    sources.push(Source::VcsSetting("user.email"));
    sources.push(Source::Variable("EMAIL"));
    assert(sources@.map_values(|source: Source| source@) =~= email_chain());
    sources
}

/// The first of the values that is there and not empty.
pub open spec fn first_value(values: Seq<Option<Seq<char>>>) -> Option<Seq<char>>
    decreases values.len(),
{
    if values.len() == 0 {
        None
    } else if values[0] is Some && values[0]->0.len() > 0 {
        values[0]
    } else {
        first_value(values.drop_first())
    }
}

/// The value of the first source that has one. `values` holds what each
/// source of a chain gave, in the chain's order; a source that is unset,
/// unreadable or empty is passed over.
pub fn get_environment_variable(values: &Vec<Option<String>>) -> (found: Option<String>)
    ensures
        text_of(found) == first_value(texts_of(values@)),
{
    let ghost all = texts_of(values@);
    let mut i: usize = 0;
    assert(all.skip(0) =~= all);
    while i < values.len()
        invariant
            i <= values.len(),
            all == texts_of(values@),
            first_value(all) == first_value(all.skip(i as int)),
        decreases values.len() - i,
    {
        proof {
            assert(all.skip(i as int)[0] == text_of(values@[i as int]));
            assert(all.skip(i as int).drop_first() =~= all.skip(i + 1));
        }
        match &values[i] {
            Some(value) => {
                if value.as_str().unicode_len() > 0 {
                    return Some(value.clone());
                }
            },
            None => {},
        }
        i += 1;
    }
    None
}

/// Who the author of a new project is.
#[derive(Debug)]
pub struct Identity {
    pub name: String,
    pub email: Option<String>,
}

/// An [`Identity`] with its texts as sequences of characters.
pub struct IdentityView {
    pub name: Seq<char>,
    pub email: Option<Seq<char>>,
}

impl View for Identity {
    type V = IdentityView;

    open spec fn view(&self) -> IdentityView {
        IdentityView { name: self.name@, email: text_of(self.email) }
    }
}

impl IdentityView {
    /// The name is not empty, and neither part has white space around it.
    pub open spec fn well_formed(self) -> bool {
        &&& self.name.len() > 0
        &&& trimmed(self.name) == self.name
        &&& self.email matches Some(address) ==> trimmed(address) == address
    }

    /// The identity as a manifest lists it.
    pub open spec fn line(self) -> Seq<char> {
        author_line(self.name, self.email)
    }
}

impl Identity {
    /// The identity as a manifest lists it.
    pub fn line(&self) -> (text: String)
        ensures
            text@ == self@.line(),
    {
        format_author(self.name.as_str(), &self.email)
    }
}

/// The identity that the values of the two chains give: the first name
/// and the first address, each trimmed. There is none where no source
/// has a name, or the name is white space alone.
pub open spec fn resolved_identity(
    names: Seq<Option<Seq<char>>>,
    emails: Seq<Option<Seq<char>>>,
    windows: bool,
) -> Result<IdentityView, ErrorView> {
    match first_value(names) {
        Some(name) => if trimmed(name).len() > 0 {
            Ok(
                IdentityView {
                    name: trimmed(name),
                    email: match first_value(emails) {
                        Some(address) => Some(trimmed(address)),
                        None => None,
                    },
                },
            )
        } else {
            Err(ErrorView::NameUnresolved(login_variable(windows)))
        },
        None => Err(ErrorView::NameUnresolved(login_variable(windows))),
    }
}

/// Resolves the author's identity. `names` and `emails` hold what the
/// sources of the two chains gave, in the chains' order.
pub fn get_name_and_email(
    names: &Vec<Option<String>>,
    emails: &Vec<Option<String>>,
    windows: bool,
) -> (identity: Result<Identity, Error>)
    ensures
        match resolved_identity(texts_of(names@), texts_of(emails@), windows) {
            Ok(expected) => identity is Ok && identity->Ok_0@ == expected && expected.well_formed(),
            Err(error) => identity is Err && identity->Err_0@ == error,
        },
{
    let login = if windows {
        "USERNAME"
    } else {
        "USER"
    };
    let name = match get_environment_variable(names) {
        Some(name) => trim(name.as_str()),
        None => { return Err(Error::NameUnresolved(String::from_str(login))); },
    };
    if name.as_str().unicode_len() == 0 {
        return Err(Error::NameUnresolved(String::from_str(login)));
    }
    let email = match get_environment_variable(emails) {
        Some(address) => Some(trim(address.as_str())),
        None => None,
    };
    proof {
        let first = first_value(texts_of(names@))->0;
        lemma_trimmed_has_no_margin(first);
        if first_value(texts_of(emails@)) is Some {
            lemma_trimmed_has_no_margin(first_value(texts_of(emails@))->0);
        }
    }
    Ok(Identity { name, email })
}

/// A chain with one value gives that value: of sources that gave nothing
/// and one that gave a text, the text is the one found.
pub proof fn lemma_single_value(values: Seq<Option<Seq<char>>>, i: int)
    requires
        0 <= i < values.len(),
        values[i] is Some,
        values[i]->0.len() > 0,
        forall|j: int| 0 <= j < i ==> (#[trigger] values[j]) is None || values[j]->0.len() == 0,
    ensures
        first_value(values) == values[i],
    decreases i,
{
    if i > 0 {
        let rest = values.drop_first();
        assert forall|j: int| 0 <= j < i - 1 implies (#[trigger] rest[j]) is None || rest[j]->0.len()
            == 0 by {
            assert(rest[j] == values[j + 1]);
        }
        assert(values[0] is None || values[0]->0.len() == 0);
        lemma_single_value(rest, i - 1);
    }
}

} // verus!
