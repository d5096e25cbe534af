use vstd::prelude::*;
use vstd::string::StringExecFns;
use crate::errors::Error;
use crate::errors::ErrorView;
use crate::identity::author_line;
use crate::identity::format_author;
use crate::identity::text_of;
use crate::strings::same_text;

verus! {

/// The TOML value of the outside crate: carried through, never looked into.
#[verifier::external_type_specification]
#[verifier::external_body]
pub struct ExTomlValue(toml::Value);

/// What a TOML value holds.
pub enum Item {
    Text(Seq<char>),
    Integer(int),
    /// A number with a fraction, by its bit pattern.
    Fraction(int),
    Boolean(bool),
    Datetime(Seq<char>),
    List(Seq<Item>),
    Table(Map<Seq<char>, Item>),
}

/// The kind of a value: what the members of a list must agree in.
pub enum Kind {
    Text,
    Integer,
    Fraction,
    Boolean,
    Datetime,
    List,
    Table,
}

impl Item {
    pub open spec fn kind(self) -> Kind {
        match self {
            Item::Text(_) => Kind::Text,
            Item::Integer(_) => Kind::Integer,
            Item::Fraction(_) => Kind::Fraction,
            Item::Boolean(_) => Kind::Boolean,
            Item::Datetime(_) => Kind::Datetime,
            Item::List(_) => Kind::List,
            Item::Table(_) => Kind::Table,
        }
    }

    /// Every list in the value, at any depth, has members of one kind.
    pub open spec fn uniform(self) -> bool
        decreases self,
    {
        match self {
            Item::List(members) => forall|i: int|
                0 <= i < members.len() ==> (#[trigger] members[i]).kind() == members[0].kind()
                    && members[i].uniform(),
            Item::Table(entries) => forall|key: Seq<char>|
                entries.contains_key(key) ==> (#[trigger] entries[key]).uniform(),
            _ => true,
        }
    }
}

/// What a TOML value of the outside crate holds: the variant and, in it,
/// the text, number or members.
pub uninterp spec fn value_model(value: toml::Value) -> Item;

/// What `toml::Parser::parse` makes of a text: the document, if the text
/// is one.
pub uninterp spec fn parsed(text: Seq<char>) -> Option<Item>;

/// What `Display` of `toml::Value` writes for a document.
pub uninterp spec fn rendered(document: Item) -> Seq<char>;

/// `toml::Parser::parse` on a fresh parser for `text`: the top-level table,
/// or nothing where the parser recorded an error. The parser refuses a list
/// whose members differ in kind, so what it returns is uniform.
#[verifier::external_body]
fn parse_document(text: &str) -> (document: Option<toml::Value>)
    ensures
        match document {
            Some(value) => parsed(text@) == Some(value_model(value)) && value_model(value) is Table
                && value_model(value).uniform(),
            None => parsed(text@) is None,
        },
{
    toml::Parser::new(text).parse().map(toml::Value::Table)
}

/// `Display` of `toml::Value`, which panics on a list that starts with a
/// table and holds something else; a uniform value has no such list.
#[verifier::external_body]
fn render_document(document: &toml::Value) -> (text: String)
    requires
        value_model(*document).uniform(),
    ensures
        text@ == rendered(value_model(*document)),
{
    format!("{}", document)
}

/// `toml::Value::as_table`, which has something for the variant `Table`
/// and for no other.
#[verifier::external_body]
fn is_table(value: &toml::Value) -> (yes: bool)
    ensures
        yes == (value_model(*value) is Table),
{
    value.as_table().is_some()
}

/// `BTreeMap::remove` on the entries of a `toml::Value::Table`: the entry
/// under `key` leaves the table and is handed out.
#[verifier::external_body]
fn take_member(table: &mut toml::Value, key: &str) -> (member: Option<toml::Value>)
    requires
        value_model(*old(table)) is Table,
    ensures
        value_model(*final(table)) == Item::Table(value_model(*old(table))->Table_0.remove(key@)),
        match member {
            Some(value) => value_model(*old(table))->Table_0.contains_key(key@) && value_model(
                value,
            ) == value_model(*old(table))->Table_0[key@],
            None => !value_model(*old(table))->Table_0.contains_key(key@),
        },
{
    match table {
        toml::Value::Table(entries) => entries.remove(key),
        _ => None,
    }
}

/// `BTreeMap::insert` on the entries of a `toml::Value::Table`: `member`
/// stands under `key` afterwards, in place of what stood there.
#[verifier::external_body]
fn put_member(table: &mut toml::Value, key: &str, member: toml::Value)
    requires
        value_model(*old(table)) is Table,
    ensures
        value_model(*final(table)) == Item::Table(
            value_model(*old(table))->Table_0.insert(key@, value_model(member)),
        ),
{
    match table {
        toml::Value::Table(entries) => {
            entries.insert(key.to_string(), member);
        },
        _ => {},
    }
}

/// The variant `toml::Value::String` of a text.
#[verifier::external_body]
fn text_value(text: &str) -> (value: toml::Value)
    ensures
        value_model(value) == Item::Text(text@),
{
    toml::Value::String(text.to_string())
}

/// The variant `toml::Value::Array` of the given members.
#[verifier::external_body]
fn list_value(members: Vec<toml::Value>) -> (value: toml::Value)
    ensures
        value_model(value) == Item::List(members@.map_values(|member| value_model(member))),
{
    toml::Value::Array(members)
}

/// The document with `package.name` set to `name` and `package.authors` to
/// the one `author`; nothing where the document has no table `package`.
pub open spec fn personalized(document: Item, name: Seq<char>, author: Seq<char>) -> Option<
    Item,
> {
    if document is Table && document->Table_0.contains_key("package"@)
        && document->Table_0["package"@] is Table {
        let entries = document->Table_0;
        let package = entries["package"@]->Table_0;
        Some(
            Item::Table(
                entries.insert(
                    "package"@,
                    Item::Table(
                        package.insert("name"@, Item::Text(name)).insert(
                            "authors"@,
                            Item::List(seq![Item::Text(author)]),
                        ),
                    ),
                ),
            ),
        )
    } else {
        None
    }
}

/// What `edit_cargo_toml` returns for a manifest `file` with the text
/// `contents`: the rewritten text, or that the file is no manifest.
pub open spec fn edited(
    contents: Seq<char>,
    file: Seq<char>,
    name: Seq<char>,
    author: Seq<char>,
) -> Result<Seq<char>, ErrorView> {
    match parsed(contents) {
        Some(document) => match personalized(document, name, author) {
            Some(changed) => Ok(rendered(changed)),
            None => Err(ErrorView::ManifestParseError(file)),
        },
        None => Err(ErrorView::ManifestParseError(file)),
    }
}

/// Sets the package name and the single author in a parsed manifest.
/// `document` is what the parser returned for the manifest `file`.
pub fn personalize_document(
    document: Option<toml::Value>,
    file: &str,
    project_name: &str,
    author: &str,
) -> (outcome: Result<toml::Value, Error>)
    ensures
        match document {
            Some(value) => match personalized(value_model(value), project_name@, author@) {
                Some(changed) => outcome is Ok && value_model(outcome->Ok_0) == changed && (
                value_model(value).uniform() ==> changed.uniform()),
                None => outcome is Err && outcome->Err_0@ == ErrorView::ManifestParseError(file@),
            },
            None => outcome is Err && outcome->Err_0@ == ErrorView::ManifestParseError(file@),
        },
{
    let mut root = match document {
        Some(value) => value,
        None => { return Err(Error::ManifestParseError(String::from_str(file))); },
    };
    if !is_table(&root) {
        return Err(Error::ManifestParseError(String::from_str(file)));
    }
    let ghost before = value_model(root)->Table_0;
    let mut package = match take_member(&mut root, "package") {
        Some(value) => value,
        None => { return Err(Error::ManifestParseError(String::from_str(file))); },
    };
    if !is_table(&package) {
        return Err(Error::ManifestParseError(String::from_str(file)));
    }
    let ghost inner = value_model(package)->Table_0;
    put_member(&mut package, "name", text_value(project_name));
    let mut authors: Vec<toml::Value> = Vec::new();
    authors.push(text_value(author));
    let listed = list_value(authors);
    proof {
        assert(value_model(listed)->List_0 =~= seq![Item::Text(author@)]);
    }
    put_member(&mut package, "authors", listed);
    put_member(&mut root, "package", package);
    proof {
        let after = inner.insert("name"@, Item::Text(project_name@)).insert(
            "authors"@,
            Item::List(seq![Item::Text(author@)]),
        );
        assert(before.remove("package"@).insert("package"@, Item::Table(after))
            =~= before.insert("package"@, Item::Table(after)));
        if Item::Table(before).uniform() {
            lemma_personalized_uniform(Item::Table(before), project_name@, author@);
        }
    }
    Ok(root)
}

/// Personalizing keeps a uniform document uniform.
pub proof fn lemma_personalized_uniform(document: Item, name: Seq<char>, author: Seq<char>)
    requires
        document.uniform(),
        personalized(document, name, author) is Some,
    ensures
        personalized(document, name, author)->Some_0.uniform(),
{
    let entries = document->Table_0;
    let package = entries["package"@]->Table_0;
    let authors = Item::List(seq![Item::Text(author)]);
    let after = package.insert("name"@, Item::Text(name)).insert("authors"@, authors);
    assert(entries["package"@].uniform());
    assert(authors.uniform()) by {
        reveal_with_fuel(Item::uniform, 2);
        assert(authors->List_0.len() == 1);
    }
    assert(Item::Text(name).uniform());
    assert forall|key: Seq<char>| after.contains_key(key) implies (#[trigger] after[key]).uniform() by {
        if key != "authors"@ && key != "name"@ {
            assert(package.contains_key(key));
            assert(package[key].uniform());
        }
    }
    assert(Item::Table(after).uniform());
    let changed = entries.insert("package"@, Item::Table(after));
    assert forall|key: Seq<char>| changed.contains_key(key) implies (#[trigger] changed[key]).uniform() by {
        if key != "package"@ {
            assert(entries.contains_key(key));
            assert(entries[key].uniform());
        }
    }
}

/// Rewrites the text of the manifest `file` for a new project: the package
/// takes the project's name and the one author. The text must parse to a
/// document with a table `package`.
pub fn edit_cargo_toml(
    contents: &str,
    file: &str,
    project_name: &str,
    author_name: &str,
    author_email: &Option<String>,
) -> (outcome: Result<String, Error>)
    ensures
        match edited(
            contents@,
            file@,
            project_name@,
            author_line(author_name@, text_of(*author_email)),
        ) {
            Ok(text) => outcome is Ok && outcome->Ok_0@ == text,
            Err(error) => outcome is Err && outcome->Err_0@ == error,
        },
{
    let author = format_author(author_name, author_email);
    let document = parse_document(contents);
    match personalize_document(document, file, project_name, author.as_str()) {
        Ok(changed) => Ok(render_document(&changed)),
        Err(error) => Err(error),
    }
}

/// Personalizing touches two fields and no others: the document keeps
/// its keys and what stands under each but `package`; the package keeps
/// its entries but for `name`, which is the project's name, and
/// `authors`, which lists the one author.
pub proof fn lemma_personalized_keeps_the_rest(document: Item, name: Seq<char>, author: Seq<char>)
    requires
        personalized(document, name, author) is Some,
    ensures
        ({
            let before = document->Table_0;
            let changed = personalized(document, name, author)->Some_0;
            let after = changed->Table_0;
            let package_before = before["package"@]->Table_0;
            let package_after = after["package"@]->Table_0;
            &&& changed is Table
            &&& after.dom() == before.dom()
            &&& forall|key: Seq<char>|
                before.contains_key(key) && key != "package"@ ==> after[key] == before[key]
            &&& after["package"@] is Table
            &&& package_after.dom() == package_before.dom().insert("name"@).insert("authors"@)
            &&& package_after["name"@] == Item::Text(name)
            &&& package_after["authors"@] == Item::List(seq![Item::Text(author)])
            &&& forall|key: Seq<char>|
                package_before.contains_key(key) && key != "name"@ && key != "authors"@
                    ==> package_after[key] == package_before[key]
        }),
{
    reveal_strlit("name");
    reveal_strlit("authors");
    let before = document->Table_0;
    let after = personalized(document, name, author)->Some_0->Table_0;
    let package_before = before["package"@]->Table_0;
    let package_after = after["package"@]->Table_0;
    assert("name"@.len() != "authors"@.len());
    assert(after.dom() =~= before.dom());
    assert(package_after.dom() =~= package_before.dom().insert("name"@).insert("authors"@));
}

/// The file name that marks the manifest of a project.
pub const MANIFEST_NAME: &'static str = "Cargo.toml";

/// Whether an entry at the top of the project directory is the manifest:
/// a regular file of exactly the manifest's name.
pub fn find_cargo_toml(name: &str, is_file: bool) -> (found: bool)
    ensures
        found == (is_file && name@ == MANIFEST_NAME@),
{
    is_file && same_text(name, MANIFEST_NAME)
}

} // verus!
