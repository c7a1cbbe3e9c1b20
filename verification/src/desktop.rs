//! Desktop entry files: the directories they live in, and what one file says
//! of an application.

use crate::apps::{AppView, Application};
use crate::text::{
    after_char, before_char, pieces, position_of, split_char, split_once_char, text_eq, trim,
    trimmed,
};
use crate::tools::texts;
use vstd::prelude::*;
use vstd::string::{StrSliceExecFns, StringExecFns};

verus! {

/// Key and value pairs, the last value set for a key being the one it has.
pub struct FieldList {
    entries: Vec<(String, String)>,
}

/// The map that a list of pairs stands for.
pub open spec fn map_of(entries: Seq<(Seq<char>, Seq<char>)>) -> Map<Seq<char>, Seq<char>>
    decreases entries.len(),
{
    if entries.len() == 0 {
        Map::empty()
    } else {
        map_of(entries.drop_last()).insert(entries.last().0, entries.last().1)
    }
}

/// The pairs of a list as plain values.
pub open spec fn pair_texts(entries: Seq<(String, String)>) -> Seq<(Seq<char>, Seq<char>)> {
    entries.map_values(|e: (String, String)| (e.0@, e.1@))
}

proof fn lemma_map_of_absent(entries: Seq<(Seq<char>, Seq<char>)>, key: Seq<char>)
    requires
        forall|j: int| 0 <= j < entries.len() ==> (#[trigger] entries[j]).0 != key,
    ensures
        !map_of(entries).contains_key(key),
    decreases entries.len(),
{
    if entries.len() > 0 {
        let head = entries.drop_last();
        assert forall|j: int| 0 <= j < head.len() implies (#[trigger] head[j]).0 != key by {
            assert(head[j] == entries[j]);
        }
        lemma_map_of_absent(head, key);
        assert(entries[entries.len() - 1].0 != key);
    }
}

proof fn lemma_map_of_last(entries: Seq<(Seq<char>, Seq<char>)>, key: Seq<char>, p: int)
    requires
        0 <= p < entries.len(),
        entries[p].0 == key,
        forall|j: int| p < j < entries.len() ==> (#[trigger] entries[j]).0 != key,
    ensures
        map_of(entries).contains_key(key),
        map_of(entries)[key] == entries[p].1,
    decreases entries.len(),
{
    if p < entries.len() - 1 {
        let head = entries.drop_last();
        assert(head[p] == entries[p]);
        assert forall|j: int| p < j < head.len() implies (#[trigger] head[j]).0 != key by {
            assert(head[j] == entries[j]);
        }
        lemma_map_of_last(head, key, p);
        assert(entries[entries.len() - 1].0 != key);
    }
}

impl FieldList {
    /// The map from each key to its value.
    pub closed spec fn as_map(&self) -> Map<Seq<char>, Seq<char>> {
        map_of(pair_texts(self.entries@))
    }

    /// A list without pairs.
    pub fn new() -> (list: Self)
        ensures
            list.as_map() == Map::<Seq<char>, Seq<char>>::empty(),
    {
        let entries: Vec<(String, String)> = Vec::new();
        assert(pair_texts(entries@) =~= Seq::empty());
        FieldList { entries }
    }

    /// Sets the value of a key.
    pub fn set(&mut self, key: String, value: String)
        ensures
            final(self).as_map() == old(self).as_map().insert(key@, value@),
    {
        let ghost before = pair_texts(self.entries@);
        let ghost pair = (key@, value@);
        self.entries.push((key, value));
        assert(pair_texts(self.entries@) =~= before.push(pair));
        assert(before.push(pair).drop_last() =~= before);
    }

    /// The value of a key, if it has one.
    pub fn get(&self, key: &str) -> (value: Option<String>)
        ensures
            match value {
                Some(v) => self.as_map().contains_key(key@) && v@ == self.as_map()[key@],
                None => !self.as_map().contains_key(key@),
            },
    {
        let mut i: usize = self.entries.len();
        while i > 0
            invariant
                i <= self.entries@.len(),
                forall|j: int|
                    i <= j < self.entries@.len() ==> (#[trigger] pair_texts(self.entries@)[j]).0
                        != key@,
            decreases i,
        {
            i -= 1;
            if text_eq(self.entries[i].0.as_str(), key) {
                proof {
                    lemma_map_of_last(pair_texts(self.entries@), key@, i as int);
                }
                return Some(self.entries[i].1.clone());
            }
        }
        proof {
            lemma_map_of_absent(pair_texts(self.entries@), key@);
        }
        None
    }
}

/// What a scan knows after some lines: whether it stands inside the
/// `[Desktop Entry]` section, and the keys set there so far.
pub struct ScanState {
    pub open: bool,
    pub fields: Map<Seq<char>, Seq<char>>,
}

/// The header of the section that describes the application.
pub open spec fn entry_header() -> Seq<char> {
    "[Desktop Entry]"@
}

/// The scan after one more line. Blank lines and lines that start with `#`
/// are skipped; a line that starts with `[` opens or closes the section; in
/// the section, a line with `=` sets the key before it to the value after
/// it, both trimmed.
pub open spec fn scan_line(st: ScanState, raw: Seq<char>) -> ScanState {
    let line = trimmed(raw);
    if line.len() == 0 || line[0] == '#' {
        st
    } else if line[0] == '[' {
        ScanState { open: line == entry_header(), fields: st.fields }
    } else if st.open && position_of(line, '=') < line.len() {
        ScanState {
            open: true,
            fields: st.fields.insert(
                trimmed(before_char(line, '=')),
                trimmed(after_char(line, '=')),
            ),
        }
    } else {
        st
    }
}

/// The scan after all lines.
pub open spec fn scan(lines: Seq<Seq<char>>) -> ScanState
    decreases lines.len(),
{
    if lines.len() == 0 {
        ScanState { open: false, fields: Map::empty() }
    } else {
        scan_line(scan(lines.drop_last()), lines.last())
    }
}

/// The keys that the `[Desktop Entry]` section of a file sets.
pub open spec fn entry_fields(content: Seq<char>) -> Map<Seq<char>, Seq<char>> {
    scan(pieces(content, '\n')).fields
}

/// The texts of a list that are not empty, in order.
pub open spec fn nonempty(parts: Seq<Seq<char>>) -> Seq<Seq<char>>
    decreases parts.len(),
{
    if parts.len() == 0 {
        Seq::empty()
    } else if parts.last().len() == 0 {
        nonempty(parts.drop_last())
    } else {
        nonempty(parts.drop_last()).push(parts.last())
    }
}

/// The value of a key, if it is set.
pub open spec fn lookup(fields: Map<Seq<char>, Seq<char>>, key: Seq<char>) -> Option<Seq<char>> {
    if fields.contains_key(key) {
        Some(fields[key])
    } else {
        None
    }
}

/// The items of a list value, which `;` separates; none if the key is unset.
pub open spec fn list_value(fields: Map<Seq<char>, Seq<char>>, key: Seq<char>) -> Seq<Seq<char>> {
    if fields.contains_key(key) {
        nonempty(pieces(fields[key], ';'))
    } else {
        Seq::empty()
    }
}

/// Whether a key is set to `true`.
pub open spec fn flag_value(fields: Map<Seq<char>, Seq<char>>, key: Seq<char>) -> bool {
    fields.contains_key(key) && fields[key] == "true"@
}

/// Whether the fields describe an application: `Name` and `Exec` are set,
/// and `Type`, if set, is `Application`.
pub open spec fn describes_application(fields: Map<Seq<char>, Seq<char>>) -> bool {
    &&& fields.contains_key("Name"@)
    &&& fields.contains_key("Exec"@)
    &&& fields.contains_key("Type"@) ==> fields["Type"@] == "Application"@
}

/// The application that a desktop file describes, if it describes one. The
/// identifier is the stem of the file's name; without one there is no
/// application.
pub open spec fn desktop_entry(
    stem: Option<Seq<char>>,
    path: Seq<char>,
    content: Seq<char>,
) -> Option<AppView> {
    let f = entry_fields(content);
    if describes_application(f) && stem is Some {
        Some(
            AppView {
                id: stem->Some_0,
                name: f["Name"@],
                generic_name: lookup(f, "GenericName"@),
                comment: lookup(f, "Comment"@),
                command: f["Exec"@],
                icon: lookup(f, "Icon"@),
                categories: list_value(f, "Categories"@),
                keywords: list_value(f, "Keywords"@),
                terminal: flag_value(f, "Terminal"@),
                no_display: flag_value(f, "NoDisplay"@),
                desktop_file: path,
            },
        )
    } else {
        None
    }
}

/// The view of an optional application.
pub open spec fn opt_app(app: Option<Application>) -> Option<AppView> {
    match app {
        Some(a) => Some(a@),
        None => None,
    }
}

/// The text of an optional string slice.
pub open spec fn opt_str(s: Option<&str>) -> Option<Seq<char>> {
    match s {
        Some(t) => Some(t@),
        None => None,
    }
}

/// Collects the keys that the `[Desktop Entry]` section of a file sets.
pub fn read_fields(content: &str) -> (fields: FieldList)
    ensures
        fields.as_map() == entry_fields(content@),
{
    let lines = split_char(content, '\n');
    let mut fields = FieldList::new();
    let mut open = false;
    let mut i: usize = 0;
    while i < lines.len()
        invariant
            i <= lines.len(),
            texts(lines@) == pieces(content@, '\n'),
            scan(texts(lines@).subrange(0, i as int)) == (ScanState {
                open,
                fields: fields.as_map(),
            }),
        decreases lines.len() - i,
    {
        proof {
            let prefix = texts(lines@).subrange(0, i + 1);
            assert(prefix.drop_last() =~= texts(lines@).subrange(0, i as int));
            assert(prefix.last() == lines@[i as int]@);
        }
        let line = trim(lines[i].as_str());
        if !line.is_empty() {
            let first = line.get_char(0);
            if first == '#' {
            } else if first == '[' {
                open = text_eq(line, "[Desktop Entry]");
            } else if open {
                match split_once_char(line, '=') {
                    Some((key, value)) => {
                        fields.set(String::from_str(trim(key)), String::from_str(trim(value)));
                    },
                    None => {},
                }
            }
        }
        i += 1;
    }
    assert(texts(lines@).subrange(0, lines@.len() as int) =~= texts(lines@));
    fields
}

/// Splits a list value at `;` and drops the empty items.
pub fn split_list(value: &str) -> (items: Vec<String>)
    ensures
        texts(items@) == nonempty(pieces(value@, ';')),
{
    let parts = split_char(value, ';');
    let mut items: Vec<String> = Vec::new();
    let mut i: usize = 0;
    while i < parts.len()
        invariant
            i <= parts.len(),
            texts(items@) == nonempty(texts(parts@).subrange(0, i as int)),
        decreases parts.len() - i,
    {
        proof {
            let prefix = texts(parts@).subrange(0, i + 1);
            assert(prefix.drop_last() =~= texts(parts@).subrange(0, i as int));
            assert(prefix.last() == parts@[i as int]@);
        }
        if !parts[i].as_str().is_empty() {
            let ghost before = texts(items@);
            items.push(parts[i].clone());
            assert(texts(items@) =~= before.push(parts@[i as int]@));
        }
        i += 1;
    }
    assert(texts(parts@).subrange(0, parts@.len() as int) =~= texts(parts@));
    items
}

fn list_of(fields: &FieldList, key: &str) -> (items: Vec<String>)
    ensures
        texts(items@) == list_value(fields.as_map(), key@),
{
    match fields.get(key) {
        Some(value) => split_list(value.as_str()),
        None => {
            let items: Vec<String> = Vec::new();
            assert(texts(items@) =~= Seq::empty());
            items
        },
    }
}

fn flag_of(fields: &FieldList, key: &str) -> (set: bool)
    ensures
        set == flag_value(fields.as_map(), key@),
{
    match fields.get(key) {
        Some(value) => text_eq(value.as_str(), "true"),
        None => false,
    }
}

/// Reads one desktop file, given the stem of its name.
pub fn read_desktop_entry(stem: Option<&str>, path: &str, content: &str) -> (app: Option<
    Application,
>)
    ensures
        opt_app(app) == desktop_entry(opt_str(stem), path@, content@),
{
    let fields = read_fields(content);
    let name = match fields.get("Name") {
        Some(v) => v,
        None => {
            return None;
        },
    };
    let command = match fields.get("Exec") {
        Some(v) => v,
        None => {
            return None;
        },
    };
    match fields.get("Type") {
        Some(kind) => {
            if !text_eq(kind.as_str(), "Application") {
                return None;
            }
        },
        None => {},
    }
    let categories = list_of(&fields, "Categories");
    let keywords = list_of(&fields, "Keywords");
    let id = match stem {
        Some(s) => String::from_str(s),
        None => {
            return None;
        },
    };
    Some(
        Application {
            id,
            name,
            generic_name: fields.get("GenericName"),
            comment: fields.get("Comment"),
            command,
            icon: fields.get("Icon"),
            categories,
            keywords,
            terminal: flag_of(&fields, "Terminal"),
            no_display: flag_of(&fields, "NoDisplay"),
            desktop_file: String::from_str(path),
        },
    )
}

/// The stem of a path's file name, by `std::path::Path::file_stem`, with
/// `to_string_lossy` for the text. Nothing is claimed of it: what counts as a
/// file name depends on the platform.
#[verifier::external_body]
fn file_stem(path: &str) -> (stem: Option<String>) {
    std::path::Path::new(path).file_stem().map(|s| s.to_string_lossy().into_owned())
}

/// Reads one desktop file. There is no application unless the file
/// describes one; if there is, it is the one that the file describes under
/// the identifier that the path's file name gave.
pub fn parse_desktop_file(path: &str, content: &str) -> (app: Option<Application>)
    ensures
        !describes_application(entry_fields(content@)) ==> app is None,
        app matches Some(a) ==> exists|stem: Seq<char>|
            desktop_entry(Some(stem), path@, content@) == Some(a@),
{
    let stem = file_stem(path);
    match stem {
        Some(s) => {
            let app = read_desktop_entry(Some(s.as_str()), path, content);
            assert(opt_app(app) == desktop_entry(Some(s@), path@, content@));
            app
        },
        None => read_desktop_entry(None, path, content),
    }
}

/// The directories that may hold desktop files, in the order of the scan:
/// the system's, the user's, those of the data directories that the
/// environment lists with `:` between them, and those of the package
/// systems.
pub open spec fn desktop_dirs_of(home: Option<Seq<char>>, data_dirs: Option<Seq<char>>) -> Seq<
    Seq<char>,
> {
    seq!["/usr/share/applications"@, "/usr/local/share/applications"@] + (match home {
        Some(h) => seq![h + "/.local/share/applications"@],
        None => Seq::empty(),
    }) + (match data_dirs {
        Some(d) => pieces(d, ':').map_values(|dir: Seq<char>| dir + "/applications"@),
        None => Seq::empty(),
    }) + seq!["/var/lib/flatpak/exports/share/applications"@] + (match home {
        Some(h) => seq![h + "/.local/share/flatpak/exports/share/applications"@],
        None => Seq::empty(),
    }) + seq!["/var/lib/snapd/desktop/applications"@]
}

/// Lists the directories to scan, given the home directory and the list of
/// data directories as the environment has them.
pub fn get_desktop_dirs(home: Option<&str>, data_dirs: Option<&str>) -> (dirs: Vec<String>)
    ensures
        texts(dirs@) == desktop_dirs_of(opt_str(home), opt_str(data_dirs)),
{
    let mut dirs: Vec<String> = Vec::new();
    dirs.push(String::from_str("/usr/share/applications"));
    dirs.push(String::from_str("/usr/local/share/applications"));
    if let Some(h) = home {
        dirs.push(String::from_str(h).concat("/.local/share/applications"));
    }
    let ghost first = texts(dirs@);
    assert(first =~= seq!["/usr/share/applications"@, "/usr/local/share/applications"@] + (
    match home {
        Some(h) => seq![h@ + "/.local/share/applications"@],
        None => Seq::empty(),
    }));
    let ghost mut listed: Seq<Seq<char>> = Seq::empty();
    if let Some(d) = data_dirs {
        let parts = split_char(d, ':');
        let mut i: usize = 0;
        while i < parts.len()
            invariant
                i <= parts.len(),
                texts(parts@) == pieces(d@, ':'),
                texts(dirs@) == first + texts(parts@).subrange(0, i as int).map_values(
                    |dir: Seq<char>| dir + "/applications"@,
                ),
            decreases parts.len() - i,
        {
            let ghost before = texts(dirs@);
            dirs.push(parts[i].clone().concat("/applications"));
            assert(texts(dirs@) =~= before.push(parts@[i as int]@ + "/applications"@));
            assert(texts(dirs@) =~= first + texts(parts@).subrange(0, i + 1).map_values(
                |dir: Seq<char>| dir + "/applications"@,
            ));
            i += 1;
        }
        assert(texts(parts@).subrange(0, parts@.len() as int) =~= texts(parts@));
        proof {
            listed = pieces(d@, ':').map_values(|dir: Seq<char>| dir + "/applications"@);
        }
    }
    assert(texts(dirs@) =~= first + listed);
    let ghost second = texts(dirs@);
    dirs.push(String::from_str("/var/lib/flatpak/exports/share/applications"));
    if let Some(h) = home {
        dirs.push(String::from_str(h).concat("/.local/share/flatpak/exports/share/applications"));
    }
    dirs.push(String::from_str("/var/lib/snapd/desktop/applications"));
    assert(texts(dirs@) =~= second + seq!["/var/lib/flatpak/exports/share/applications"@] + (
    match home {
        Some(h) => seq![h@ + "/.local/share/flatpak/exports/share/applications"@],
        None => Seq::empty(),
    }) + seq!["/var/lib/snapd/desktop/applications"@]);
    dirs
}

} // verus!
