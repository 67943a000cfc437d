//! Filter rules and the ordered rule set: first match wins.

use vstd::prelude::*;
use crate::error::{ErrorType, FsmError, FsmErrorView};
use crate::filepath::FilepathManager;
use crate::path::{extension, extension_of, file_name, file_name_of, join};
use crate::pattern::{regex_search, search};
use crate::text::{compose, same_text};
use crate::writer::{no_candidate, request_into, DataMessage, DataMessageView};

verus! {

/// The texts that a list holds, as a set.
pub open spec fn texts(list: Seq<String>) -> Set<Seq<char>> {
    Set::new(|t: Seq<char>| exists|i: int| 0 <= i < list.len() && #[trigger] list[i]@ == t)
}

/// The file name of `path`, or the empty text where it has none.
pub open spec fn name_or_empty(path: Seq<char>) -> Seq<char> {
    match file_name(path) {
        Some(name) => name,
        None => Seq::empty(),
    }
}

/// The extension of the file name of `path`, or the empty text where it has
/// none.
pub open spec fn extension_or_empty(path: Seq<char>) -> Seq<char> {
    match file_name(path) {
        Some(name) => match extension(name) {
            Some(ext) => ext,
            None => Seq::empty(),
        },
        None => Seq::empty(),
    }
}

/// Adding a text to a list adds it to the set of its texts.
pub proof fn lemma_texts_push(list: Seq<String>, added: String)
    ensures
        texts(list.push(added)) =~= texts(list).insert(added@),
{
    let longer = list.push(added);
    assert forall|t: Seq<char>| texts(longer).contains(t) implies texts(list).insert(
        added@,
    ).contains(t) by {
        let i = choose|i: int| 0 <= i < longer.len() && #[trigger] longer[i]@ == t;
        if i < list.len() {
            assert(list[i]@ == t);
        }
    }
    assert forall|t: Seq<char>| texts(list).insert(added@).contains(t) implies texts(
        longer,
    ).contains(t) by {
        if t == added@ {
            assert(longer[list.len() as int]@ == t);
        } else {
            let i = choose|i: int| 0 <= i < list.len() && #[trigger] list[i]@ == t;
            assert(longer[i]@ == t);
        }
    }
}

/// Whether `list` holds the text `wanted`.
pub fn holds_text(list: &Vec<String>, wanted: &str) -> (found: bool)
    ensures
        found == texts(list@).contains(wanted@),
{
    let mut i: usize = 0;
    while i < list.len()
        invariant
            i <= list.len(),
            forall|j: int| 0 <= j < i ==> list@[j]@ != wanted@,
        decreases list.len() - i,
    {
        if same_text(list[i].as_str(), wanted) {
            assert(list@[i as int]@ == wanted@);
            return true;
        }
        i += 1;
    }
    false
}

/// One rule: an optional pattern for the file name, an optional set of
/// allowed extensions, an age range that is kept but not evaluated, and the
/// key of the directory that matching files go to.
#[derive(Debug)]
pub struct FileFilter {
    filename_pattern: Option<String>,
    allowed_filetypes: Option<Vec<String>>,
    min_age: Option<u64>,
    max_age: Option<u64>,
    directory_key: String,
}

/// What a `FileFilter` holds. Ages are in seconds.
pub ghost struct FileFilterView {
    pub filename_pattern: Option<Seq<char>>,
    pub allowed_filetypes: Option<Set<Seq<char>>>,
    pub min_age: Option<u64>,
    pub max_age: Option<u64>,
    pub directory_key: Seq<char>,
}

impl View for FileFilter {
    type V = FileFilterView;

    closed spec fn view(&self) -> FileFilterView {
        FileFilterView {
            filename_pattern: match self.filename_pattern {
                Some(pattern) => Some(pattern@),
                None => None,
            },
            allowed_filetypes: match self.allowed_filetypes {
                Some(list) => Some(texts(list@)),
                None => None,
            },
            min_age: self.min_age,
            max_age: self.max_age,
            directory_key: self.directory_key@,
        }
    }
}

impl FileFilterView {
    /// The allowed extensions; the empty set where none were given.
    pub open spec fn filetypes(self) -> Set<Seq<char>> {
        match self.allowed_filetypes {
            Some(types) => types,
            None => Set::empty(),
        }
    }

    /// Whether the rule accepts a file, given what the search of its name for
    /// the rule's pattern gave and given its extension (empty for none). A
    /// rule without pattern accepts every name; a pattern that does not
    /// compile accepts none. An empty or absent set of extensions allows every
    /// file, and a file without extension is always allowed.
    pub open spec fn accepts_given(self, verdict: Option<bool>, ext: Seq<char>) -> bool {
        let name_fits = match self.filename_pattern {
            Some(_) => verdict == Some(true),
            None => true,
        };
        let type_fits = self.filetypes() =~= Set::empty() || ext.len() == 0
            || self.filetypes().contains(ext);
        name_fits && type_fits
    }

    /// What the search of the file name of `path` for the rule's pattern
    /// gives; `None` for a rule without pattern.
    pub open spec fn verdict(self, path: Seq<char>) -> Option<bool> {
        match self.filename_pattern {
            Some(pattern) => regex_search(pattern, name_or_empty(path)),
            None => None,
        }
    }

    /// Whether the rule accepts the file at `path`.
    pub open spec fn accepts(self, path: Seq<char>) -> bool {
        self.accepts_given(self.verdict(path), extension_or_empty(path))
    }
}

impl Default for FileFilter {
    /// The rule that accepts every file and names the empty key.
    fn default() -> (rule: Self)
        ensures
            rule@ == (FileFilterView {
                filename_pattern: None,
                allowed_filetypes: Some(Set::empty()),
                min_age: None,
                max_age: None,
                directory_key: Seq::empty(),
            }),
    {
        let rule = Self {
            filename_pattern: None,
            allowed_filetypes: Some(Vec::new()),
            min_age: None,
            max_age: None,
            directory_key: String::new(),
        };
        assert(texts(Seq::<String>::empty()) =~= Set::empty());
        rule
    }
}

impl FileFilter {
    /// Whether the rule accepts a file, given what the search of its name for
    /// the rule's pattern gave (`None`: the pattern does not compile, or there
    /// is none) and its extension (empty for none).
    pub fn decide(&self, verdict: Option<bool>, ext: &str) -> (accepted: bool)
        ensures
            accepted == self@.accepts_given(verdict, ext@),
    {
        let name_fits = match &self.filename_pattern {
            Some(_) => match verdict {
                Some(found) => found,
                None => false,
            },
            None => true,
        };
        if !name_fits {
            return false;
        }
        match &self.allowed_filetypes {
            Some(list) => {
                if list.len() == 0 {
                    assert(texts(list@) =~= Set::empty());
                    true
                } else {
                    assert(texts(list@).contains(list@[0]@));
                    ext.unicode_len() == 0 || holds_text(list, ext)
                }
            },
            None => true,
        }
    }

    /// Whether the rule accepts the file at `file`: its name fits the pattern,
    /// where the rule has one, and its extension is allowed.
    pub fn is_match(&self, file: &str) -> (accepted: bool)
        ensures
            accepted == self@.accepts(file@),
    {
        let name = file_name_of(file);
        let verdict = match &self.filename_pattern {
            Some(pattern) => match &name {
                Some(text) => search(pattern.as_str(), text.as_str()),
                None => {
                    let empty = String::new();
                    search(pattern.as_str(), empty.as_str())
                },
            },
            None => None,
        };
        let ext = match &name {
            Some(text) => match extension_of(text.as_str()) {
                Some(found) => found,
                None => String::new(),
            },
            None => String::new(),
        };
        assert(ext@ =~= extension_or_empty(file@));
        self.decide(verdict, ext.as_str())
    }

    /// Gives the rule the pattern that file names have to fit.
    pub fn set_filename_pattern(&mut self, pattern: String)
        ensures
            final(self)@ == (FileFilterView { filename_pattern: Some(pattern@), ..old(self)@ }),
    {
        self.filename_pattern = Some(pattern);
    }

    /// Allows one more extension.
    pub fn add_allowed_filetype(&mut self, new_type: String)
        ensures
            final(self)@ == (FileFilterView {
                allowed_filetypes: Some(old(self)@.filetypes().insert(new_type@)),
                ..old(self)@
            }),
    {
        let mut list: Vec<String> = match self.allowed_filetypes.take() {
            Some(list) => list,
            None => {
                assert(texts(Seq::<String>::empty()) =~= Set::empty());
                Vec::new()
            },
        };
        assert(texts(list@) == old(self)@.filetypes());
        if holds_text(&list, new_type.as_str()) {
            assert(texts(list@).insert(new_type@) =~= texts(list@));
        } else {
            proof {
                lemma_texts_push(list@, new_type);
            }
            list.push(new_type);
        }
        self.allowed_filetypes = Some(list);
    }

    /// Forgets the allowed extensions, so that every extension is allowed.
    pub fn clear_allowed_filetypes(&mut self)
        ensures
            final(self)@ == (FileFilterView {
                allowed_filetypes: match old(self)@.allowed_filetypes {
                    Some(_) => Some(Set::empty()),
                    None => None,
                },
                ..old(self)@
            }),
    {
        if self.allowed_filetypes.is_some() {
            assert(texts(Seq::<String>::empty()) =~= Set::empty());
            self.allowed_filetypes = Some(Vec::new());
        }
    }

    /// Names the directory key that matching files go to.
    pub fn set_directory_key(&mut self, key: String)
        ensures
            final(self)@ == (FileFilterView { directory_key: key@, ..old(self)@ }),
    {
        self.directory_key = key;
    }

    /// The directory key that matching files go to.
    pub fn get_directory_key(&self) -> (key: &str)
        ensures
            key@ == self@.directory_key,
    {
        self.directory_key.as_str()
    }

    /// The pattern for the file name, where the rule has one.
    pub fn get_filename_pattern(&self) -> (pattern: Option<&String>)
        ensures
            match pattern {
                Some(text) => self@.filename_pattern == Some(text@),
                None => self@.filename_pattern is None,
            },
    {
        self.filename_pattern.as_ref()
    }

    /// The allowed extensions, where the rule names any.
    pub fn get_allowed_filetypes(&self) -> (types: Option<&Vec<String>>)
        ensures
            match types {
                Some(list) => self@.allowed_filetypes == Some(texts(list@)),
                None => self@.allowed_filetypes is None,
            },
    {
        self.allowed_filetypes.as_ref()
    }

    /// Keeps the age range of the rule, in seconds. Matching does not look at
    /// it.
    pub fn set_age_range(&mut self, min_age: Option<u64>, max_age: Option<u64>)
        ensures
            final(self)@ == (FileFilterView { min_age, max_age, ..old(self)@ }),
    {
        self.min_age = min_age;
        self.max_age = max_age;
    }

    /// The age range of the rule, in seconds: least and greatest.
    pub fn get_age_range(&self) -> (range: (Option<u64>, Option<u64>))
        ensures
            range == (self@.min_age, self@.max_age),
    {
        (self.min_age, self.max_age)
    }
}

/// The first rule from position `from` on that accepts `path`.
pub open spec fn first_match_from(rules: Seq<FileFilter>, path: Seq<char>, from: int) -> Option<
    int,
>
    decreases rules.len() - from,
{
    if from < 0 || from >= rules.len() {
        None
    } else if rules[from]@.accepts(path) {
        Some(from)
    } else {
        first_match_from(rules, path, from + 1)
    }
}

/// The first rule that accepts `path`.
pub open spec fn first_match(rules: Seq<FileFilter>, path: Seq<char>) -> Option<int> {
    first_match_from(rules, path, 0)
}

/// First match wins: the match is the rule of lowest position that accepts
/// the path, and there is none exactly where no rule accepts it.
pub proof fn lemma_first_match_is_lowest(rules: Seq<FileFilter>, path: Seq<char>)
    ensures
        match first_match(rules, path) {
            Some(i) => 0 <= i < rules.len() && rules[i]@.accepts(path) && forall|j: int|
                0 <= j < i ==> !(#[trigger] rules[j])@.accepts(path),
            None => forall|j: int| 0 <= j < rules.len() ==> !(#[trigger] rules[j])@.accepts(path),
        },
{
    lemma_first_match_from(rules, path, 0);
}

proof fn lemma_first_match_from(rules: Seq<FileFilter>, path: Seq<char>, from: int)
    requires
        0 <= from,
    ensures
        match first_match_from(rules, path, from) {
            Some(i) => from <= i < rules.len() && rules[i]@.accepts(path) && forall|j: int|
                from <= j < i ==> !(#[trigger] rules[j])@.accepts(path),
            None => forall|j: int|
                from <= j < rules.len() ==> !(#[trigger] rules[j])@.accepts(path),
        },
    decreases rules.len() - from,
{
    if from < rules.len() && !rules[from]@.accepts(path) {
        lemma_first_match_from(rules, path, from + 1);
    }
}

/// Where the file at `path` is to go by the rules and the index, or why it
/// stays: the file is not there (`exists` is false), no rule accepts it, the
/// key of the first rule that accepts it is not in the index, or the path has
/// no file name. The destination is the file's name below the directory that
/// the key stands for.
pub open spec fn placement(
    rules: Seq<FileFilter>,
    path: Seq<char>,
    exists: bool,
    index: Map<Seq<char>, Seq<char>>,
) -> Result<DataMessageView, FsmErrorView> {
    if !exists {
        Err(
            FsmErrorView {
                error_type: ErrorType::FilesystemFailure,
                message: "The path "@ + path + " does not exist."@,
            },
        )
    } else {
        match first_match(rules, path) {
            None => Err(
                FsmErrorView {
                    error_type: ErrorType::NoMatchingRule,
                    message: "The file "@ + path + " does not match any filters."@,
                },
            ),
            Some(i) => {
                let key = rules[i]@.directory_key;
                if !index.dom().contains(key) {
                    Err(
                        FsmErrorView {
                            error_type: ErrorType::UnmappedDirectoryKey,
                            message: "The file "@ + path
                                + " does not map to any managed directories."@,
                        },
                    )
                } else {
                    match request_into(path, index[key]) {
                        Some(request) => Ok(request),
                        None => Err(no_candidate()),
                    }
                }
            },
        }
    }
}

/// First match wins in placement: a file that is there goes under its own
/// name below the directory that the key of the lowest accepting rule stands
/// for, and stays with `MoveFailed` where its path has no file name. The
/// rules behind that rule play no part, whether or not they accept the file.
pub proof fn lemma_placement_follows_first_match(
    rules: Seq<FileFilter>,
    path: Seq<char>,
    index: Map<Seq<char>, Seq<char>>,
    i: int,
)
    requires
        0 <= i < rules.len(),
        rules[i]@.accepts(path),
        forall|j: int| 0 <= j < i ==> !(#[trigger] rules[j])@.accepts(path),
        index.dom().contains(rules[i]@.directory_key),
    ensures
        first_match(rules, path) == Some(i),
        placement(rules, path, true, index) == match file_name(path) {
            Some(name) => Ok::<DataMessageView, FsmErrorView>(
                DataMessageView {
                    from_path: path,
                    to_path: join(index[rules[i]@.directory_key], name),
                },
            ),
            None => Err::<DataMessageView, FsmErrorView>(no_candidate()),
        },
{
    lemma_first_match_is_lowest(rules, path);
}

/// A failure whose message is `before`, `path` and `after` in a row.
fn failure(error_type: ErrorType, before: &str, path: &str, after: &str) -> (error: FsmError)
    ensures
        error@ == (FsmErrorView { error_type, message: before@ + path@ + after@ }),
{
    FsmError::new(error_type, compose(before, path, after))
}

/// The ordered rule set.
pub struct FilterManager {
    filters: Vec<FileFilter>,
}

impl FilterManager {
    /// The rules, in their order.
    pub closed spec fn rules(&self) -> Seq<FileFilter> {
        self.filters@
    }

    /// The rule set of `filters`, in their order.
    pub fn new(filters: Vec<FileFilter>) -> (manager: Self)
        ensures
            manager.rules() == filters@,
    {
        Self { filters }
    }

    /// The first rule, in declared order, that accepts `file`.
    pub fn matching_filter(&self, file: &str) -> (found: Option<&FileFilter>)
        ensures
            match found {
                Some(rule) => first_match(self.rules(), file@) matches Some(i) && *rule
                    == self.rules()[i],
                None => first_match(self.rules(), file@) is None,
            },
    {
        let mut i: usize = 0;
        while i < self.filters.len()
            invariant
                i <= self.filters.len(),
                first_match(self.filters@, file@) == first_match_from(
                    self.filters@,
                    file@,
                    i as int,
                ),
            decreases self.filters.len() - i,
        {
            if self.filters[i].is_match(file) {
                return Some(&self.filters[i]);
            }
            i += 1;
        }
        None
    }

    /// Decides where the discovered file `file_to_move` goes: the request to
    /// move it below the directory that the first matching rule names, under
    /// its own file name. `exists` says whether the file is there.
    pub fn place_file_in_mapped_location(
        &self,
        file_to_move: &str,
        exists: bool,
        filepath_manager: &FilepathManager,
    ) -> (placed: Result<DataMessage, FsmError>)
        ensures
            match placed {
                Ok(request) => placement(self.rules(), file_to_move@, exists, filepath_manager@)
                    == Ok::<DataMessageView, FsmErrorView>(request@),
                Err(error) => placement(self.rules(), file_to_move@, exists, filepath_manager@)
                    == Err::<DataMessageView, FsmErrorView>(error@),
            },
    {
        if !exists {
            return Err(
                failure(
                    ErrorType::FilesystemFailure,
                    "The path ",
                    file_to_move,
                    " does not exist.",
                ),
            );
        }
        let rule = match self.matching_filter(file_to_move) {
            Some(rule) => rule,
            None => {
                return Err(
                    failure(
                        ErrorType::NoMatchingRule,
                        "The file ",
                        file_to_move,
                        " does not match any filters.",
                    ),
                );
            },
        };
        let directory = match filepath_manager.get(rule.get_directory_key()) {
            Some(directory) => directory,
            None => {
                return Err(
                    failure(
                        ErrorType::UnmappedDirectoryKey,
                        "The file ",
                        file_to_move,
                        " does not map to any managed directories.",
                    ),
                );
            },
        };
        DataMessage::into_directory(file_to_move, directory.as_str())
    }
}

} // verus!
