//! Container logging: parsing of log destinations into drivers.
use vstd::prelude::*;
use vstd::string::*;

verus! {

/// Number of characters kept of a container identifier in the journal.
pub const TRUNC_ID_LEN: usize = 12;

/// The keywords that name a logging driver.
#[derive(Clone, Copy, Debug, PartialEq, Eq, Structural)]
pub enum Keyword {
    K8sFile,
    Journald,
    Off,
    Null,
    NoLogging,
}

/// What the journal is given about a container; each entry is a `KEY=value` pair.
#[derive(Clone, Debug, Default, PartialEq, Eq)]
pub struct ContainerFields {
    id: String,
    id_full: String,
    tag: Option<String>,
    name: Option<String>,
}

/// Available logging drivers.
#[derive(Clone, Debug, PartialEq, Eq)]
pub enum Driver {
    /// Kubernetes file based logging.
    K8sFile(String),
    /// Journald based logging.
    Journald(ContainerFields),
    /// No logging.
    Off,
    /// No logging.
    Null,
    /// No logging.
    NoLogging,
}

/// Why a log destination could not be resolved.
#[derive(Clone, Copy, Debug, PartialEq, Eq, Structural)]
pub enum LogError {
    /// The part before a colon names no driver.
    UnknownDriver,
    /// A file driver was given an empty path.
    EmptyPath,
    /// Journal logging was asked for without a container identifier.
    MissingId,
    /// The container identifier is shorter than `TRUNC_ID_LEN` characters.
    IdTooShort,
}

/// Mathematical model of `ContainerFields`.
pub ghost struct FieldsView {
    pub id: Seq<char>,
    pub id_full: Seq<char>,
    pub tag: Option<Seq<char>>,
    pub name: Option<Seq<char>>,
}

/// Mathematical model of `Driver`.
pub ghost enum DriverView {
    File(Seq<char>),
    Journal(FieldsView),
    Off,
    Null,
    NoLogging,
}

pub open spec fn opt_view(o: Option<String>) -> Option<Seq<char>> {
    match o {
        Option::Some(s) => Option::Some(s@),
        Option::None => Option::None,
    }
}

pub open spec fn opt_str_view(o: Option<&str>) -> Option<Seq<char>> {
    match o {
        Option::Some(s) => Option::Some(s@),
        Option::None => Option::None,
    }
}

impl View for ContainerFields {
    type V = FieldsView;

    closed spec fn view(&self) -> FieldsView {
        FieldsView {
            id: self.id@,
            id_full: self.id_full@,
            tag: opt_view(self.tag),
            name: opt_view(self.name),
        }
    }
}

impl View for Driver {
    type V = DriverView;

    open spec fn view(&self) -> DriverView {
        match self {
            Driver::K8sFile(p) => DriverView::File(p@),
            Driver::Journald(f) => DriverView::Journal(f@),
            Driver::Off => DriverView::Off,
            Driver::Null => DriverView::Null,
            Driver::NoLogging => DriverView::NoLogging,
        }
    }
}

/// The fields of a journal driver before any container data is known.
pub open spec fn empty_fields() -> FieldsView {
    FieldsView { id: Seq::empty(), id_full: Seq::empty(), tag: Option::None, name: Option::None }
}

/// The keyword spelled by `s`, if any.
pub open spec fn keyword_of(s: Seq<char>) -> Option<Keyword> {
    if s == "k8s-file"@ {
        Option::Some(Keyword::K8sFile)
    } else if s == "journald"@ {
        Option::Some(Keyword::Journald)
    } else if s == "off"@ {
        Option::Some(Keyword::Off)
    } else if s == "null"@ {
        Option::Some(Keyword::Null)
    } else if s == "none"@ {
        Option::Some(Keyword::NoLogging)
    } else {
        Option::None
    }
}

/// The driver a keyword selects when no path comes with it.
pub open spec fn default_driver(k: Keyword) -> DriverView {
    match k {
        Keyword::K8sFile => DriverView::File(Seq::empty()),
        Keyword::Journald => DriverView::Journal(empty_fields()),
        Keyword::Off => DriverView::Off,
        Keyword::Null => DriverView::Null,
        Keyword::NoLogging => DriverView::NoLogging,
    }
}

/// Index of the first colon in `s` at or after `i`, or the length of `s` if there is none.
pub open spec fn first_colon_from(s: Seq<char>, i: int) -> int
    decreases s.len() - i,
{
    if i >= s.len() {
        s.len() as int
    } else if s[i] == ':' {
        i
    } else {
        first_colon_from(s, i + 1)
    }
}

/// Index of the first colon in `s`, or the length of `s` if there is none.
pub open spec fn first_colon(s: Seq<char>) -> int {
    first_colon_from(s, 0)
}

/// The driver that the log destination `s` names.
pub open spec fn parse_spec(s: Seq<char>) -> Result<DriverView, LogError> {
    let c = first_colon(s);
    if c >= s.len() {
        match keyword_of(s) {
            Option::Some(k) => Ok(default_driver(k)),
            Option::None => Ok(DriverView::File(s)),
        }
    } else {
        let right = s.subrange(c + 1, s.len() as int);
        match keyword_of(s.subrange(0, c)) {
            Option::None => Err(LogError::UnknownDriver),
            Option::Some(Keyword::K8sFile) => if right.len() == 0 {
                Err(LogError::EmptyPath)
            } else {
                Ok(DriverView::File(right))
            },
            Option::Some(k) => Ok(default_driver(k)),
        }
    }
}

/// `s` cut to its first `n` characters.
pub open spec fn truncate_spec(s: Seq<char>, n: nat) -> Seq<char> {
    if s.len() <= n {
        s
    } else {
        s.subrange(0, n as int)
    }
}

pub open spec fn tagged(key: Seq<char>, v: Option<Seq<char>>) -> Option<Seq<char>> {
    match v {
        Option::Some(x) => Option::Some(key + x),
        Option::None => Option::None,
    }
}

/// The journal fields for a container identifier, name and tag.
pub open spec fn fields_spec(
    id: Seq<char>,
    name: Option<Seq<char>>,
    tag: Option<Seq<char>>,
) -> FieldsView {
    FieldsView {
        id: "CONTAINER_ID="@ + truncate_spec(id, TRUNC_ID_LEN as nat),
        id_full: "CONTAINER_ID_FULL="@ + id,
        tag: tagged("CONTAINER_TAG="@, tag),
        name: tagged("CONTAINER_NAME="@, name),
    }
}

/// Whether a driver writes nowhere.
pub open spec fn is_disabled(d: DriverView) -> bool {
    d is Off || d is Null || d is NoLogging
}

/// How one log destination resolves: an error, nothing (a disabled driver), or an active driver.
pub open spec fn resolve_one(
    s: Seq<char>,
    id: Option<Seq<char>>,
    name: Option<Seq<char>>,
    tag: Option<Seq<char>>,
) -> Result<Option<DriverView>, LogError> {
    match parse_spec(s) {
        Err(e) => Err(e),
        Ok(d) => if is_disabled(d) {
            Ok(Option::None)
        } else if d is Journal {
            match id {
                Option::None => Err(LogError::MissingId),
                Option::Some(i) => if i.len() < TRUNC_ID_LEN {
                    Err(LogError::IdTooShort)
                } else {
                    Ok(Option::Some(DriverView::Journal(fields_spec(i, name, tag))))
                },
            }
        } else {
            Ok(Option::Some(d))
        },
    }
}

/// The active drivers for a list of log destinations, in input order; the
/// first destination that fails to resolve decides the error.
pub open spec fn resolve_spec(
    paths: Seq<Seq<char>>,
    id: Option<Seq<char>>,
    name: Option<Seq<char>>,
    tag: Option<Seq<char>>,
) -> Result<Seq<DriverView>, LogError>
    decreases paths.len(),
{
    if paths.len() == 0 {
        Ok(Seq::empty())
    } else {
        match resolve_spec(paths.drop_last(), id, name, tag) {
            Err(e) => Err(e),
            Ok(ds) => match resolve_one(paths.last(), id, name, tag) {
                Err(e) => Err(e),
                Ok(Option::None) => Ok(ds),
                Ok(Option::Some(d)) => Ok(ds.push(d)),
            },
        }
    }
}

/// Without a colon at or after `i`, the search runs to the end.
proof fn lemma_no_colon_from(s: Seq<char>, i: int)
    requires
        0 <= i <= s.len(),
        forall|j: int| i <= j < s.len() ==> s[j] != ':',
    ensures
        first_colon_from(s, i) == s.len(),
    decreases s.len() - i,
{
    if i < s.len() {
        lemma_no_colon_from(s, i + 1);
    }
}

/// A colon placed after a colon-free `left` is the first one.
proof fn lemma_colon_after(left: Seq<char>, right: Seq<char>, i: int)
    requires
        0 <= i <= left.len(),
        forall|j: int| 0 <= j < left.len() ==> left[j] != ':',
    ensures
        first_colon_from(left + seq![':'] + right, i) == left.len(),
    decreases left.len() - i,
{
    let s = left + seq![':'] + right;
    if i < left.len() {
        assert(s[i] == left[i]);
        lemma_colon_after(left, right, i + 1);
    } else {
        assert(s[i] == ':');
    }
}

/// The keywords hold no colon, and none is empty.
proof fn lemma_keyword_shape(s: Seq<char>)
    requires
        keyword_of(s) is Some,
    ensures
        s.len() > 0,
        forall|j: int| 0 <= j < s.len() ==> s[j] != ':',
{
    reveal_strlit("k8s-file");
    reveal_strlit("journald");
    reveal_strlit("off");
    reveal_strlit("null");
    reveal_strlit("none");
}

/// A single destination resolves as that destination alone does.
proof fn lemma_resolve_single(
    s: Seq<char>,
    id: Option<Seq<char>>,
    name: Option<Seq<char>>,
    tag: Option<Seq<char>>,
)
    ensures
        resolve_spec(seq![s], id, name, tag) == match resolve_one(s, id, name, tag) {
            Err(e) => Err::<Seq<DriverView>, LogError>(e),
            Ok(Option::None) => Ok(Seq::empty()),
            Ok(Option::Some(d)) => Ok(seq![d]),
        },
{
    assert(seq![s].drop_last() =~= Seq::<Seq<char>>::empty());
    assert(resolve_spec(Seq::empty(), id, name, tag) == Ok::<Seq<DriverView>, LogError>(Seq::empty()));
    if let Ok(Option::Some(d)) = resolve_one(s, id, name, tag) {
        assert(Seq::<DriverView>::empty().push(d) =~= seq![d]);
    }
}

/// A log destination without a colon that names no driver keyword is the
/// path of a log file, taken whole; it resolves to that file driver alone.
pub proof fn law_plain_path_is_file(
    s: Seq<char>,
    id: Option<Seq<char>>,
    name: Option<Seq<char>>,
    tag: Option<Seq<char>>,
)
    requires
        forall|j: int| 0 <= j < s.len() ==> s[j] != ':',
        keyword_of(s) is None,
    ensures
        parse_spec(s) == Ok::<DriverView, LogError>(DriverView::File(s)),
        resolve_spec(seq![s], id, name, tag) == Ok::<Seq<DriverView>, LogError>(seq![DriverView::File(s)]),
{
    lemma_no_colon_from(s, 0);
    lemma_resolve_single(s, id, name, tag);
}

/// A log destination whose part before the first colon is not a driver
/// keyword fails to parse, and so fails any list of destinations it ends.
pub proof fn law_unknown_driver_fails(
    left: Seq<char>,
    right: Seq<char>,
    before: Seq<Seq<char>>,
    id: Option<Seq<char>>,
    name: Option<Seq<char>>,
    tag: Option<Seq<char>>,
)
    requires
        forall|j: int| 0 <= j < left.len() ==> left[j] != ':',
        keyword_of(left) is None,
    ensures
        parse_spec(left + seq![':'] + right) == Err::<DriverView, LogError>(LogError::UnknownDriver),
        resolve_spec(before.push(left + seq![':'] + right), id, name, tag) is Err,
{
    let s = left + seq![':'] + right;
    lemma_colon_after(left, right, 0);
    assert(s.subrange(0, left.len() as int) =~= left);
    assert(before.push(s).drop_last() =~= before);
}

/// A destination that starts with a colon is a parse error, whatever follows it.
pub proof fn law_empty_driver_fails(right: Seq<char>)
    ensures
        parse_spec(seq![':'] + right) == Err::<DriverView, LogError>(LogError::UnknownDriver),
{
    let e = Seq::<char>::empty();
    if keyword_of(e) is Some {
        lemma_keyword_shape(e);
    }
    law_unknown_driver_fails(e, right, Seq::empty(), Option::None, Option::None, Option::None);
    assert(e + seq![':'] + right =~= seq![':'] + right);
}

/// `journald`, `journald:` and `journald:<path>` select the same journal
/// driver; the path is ignored.
pub proof fn law_journald_ignores_path(path: Seq<char>)
    ensures
        parse_spec("journald"@) == Ok::<DriverView, LogError>(DriverView::Journal(empty_fields())),
        parse_spec("journald"@ + seq![':']) == parse_spec("journald"@),
        parse_spec("journald"@ + seq![':'] + path) == parse_spec("journald"@),
{
    reveal_strlit("k8s-file");
    reveal_strlit("journald");
    let j = "journald"@;
    lemma_keyword_shape(j);
    lemma_no_colon_from(j, 0);
    assert(j + seq![':'] + Seq::<char>::empty() =~= j + seq![':']);
    lemma_colon_after(j, Seq::empty(), 0);
    lemma_colon_after(j, path, 0);
    assert((j + seq![':']).subrange(0, j.len() as int) =~= j);
    assert((j + seq![':'] + path).subrange(0, j.len() as int) =~= j);
}

/// `none`, `off` and `null` parse to a disabled driver, which resolution
/// leaves out of the active drivers, with or without a container identifier.
pub proof fn law_disabled_drivers(
    s: Seq<char>,
    id: Option<Seq<char>>,
    name: Option<Seq<char>>,
    tag: Option<Seq<char>>,
)
    requires
        s == "none"@ || s == "off"@ || s == "null"@,
    ensures
        parse_spec(s) matches Ok(d) && is_disabled(d),
        resolve_spec(seq![s], id, name, tag) == Ok::<Seq<DriverView>, LogError>(Seq::empty()),
{
    reveal_strlit("k8s-file");
    reveal_strlit("journald");
    reveal_strlit("off");
    reveal_strlit("null");
    reveal_strlit("none");
    lemma_keyword_shape(s);
    lemma_no_colon_from(s, 0);
    lemma_resolve_single(s, id, name, tag);
}

/// A journal driver needs a container identifier of at least `TRUNC_ID_LEN`
/// characters. With one, its fields hold the identifier cut to that length
/// and the identifier unchanged.
pub proof fn law_journal_id(
    path: Seq<char>,
    id: Seq<char>,
    name: Option<Seq<char>>,
    tag: Option<Seq<char>>,
)
    requires
        parse_spec(path) matches Ok(d) && d is Journal,
    ensures
        id.len() < TRUNC_ID_LEN ==> resolve_spec(seq![path], Option::Some(id), name, tag)
            == Err::<Seq<DriverView>, LogError>(LogError::IdTooShort),
        resolve_spec(seq![path], Option::None, name, tag) == Err::<Seq<DriverView>, LogError>(
            LogError::MissingId,
        ),
        id.len() >= TRUNC_ID_LEN ==> resolve_spec(seq![path], Option::Some(id), name, tag)
            == Ok::<Seq<DriverView>, LogError>(
            seq![DriverView::Journal(FieldsView {
                id: "CONTAINER_ID="@ + id.subrange(0, TRUNC_ID_LEN as int),
                id_full: "CONTAINER_ID_FULL="@ + id,
                tag: tagged("CONTAINER_TAG="@, tag),
                name: tagged("CONTAINER_NAME="@, name),
            })],
        ),
{
    lemma_resolve_single(path, Option::Some(id), name, tag);
    lemma_resolve_single(path, Option::None, name, tag);
    if id.len() == TRUNC_ID_LEN {
        assert(id.subrange(0, TRUNC_ID_LEN as int) =~= id);
    }
}

/// Once a prefix of the destinations fails, the whole list fails with the same error.
proof fn lemma_error_persists(
    paths: Seq<Seq<char>>,
    id: Option<Seq<char>>,
    name: Option<Seq<char>>,
    tag: Option<Seq<char>>,
    k: int,
    e: LogError,
)
    requires
        0 <= k <= paths.len(),
        resolve_spec(paths.take(k), id, name, tag) == Err::<Seq<DriverView>, LogError>(e),
    ensures
        resolve_spec(paths, id, name, tag) == Err::<Seq<DriverView>, LogError>(e),
    decreases paths.len() - k,
{
    if k < paths.len() {
        assert(paths.take(k + 1).drop_last() =~= paths.take(k));
        lemma_error_persists(paths, id, name, tag, k + 1, e);
    } else {
        assert(paths.take(k) =~= paths);
    }
}

/// Whether `a` and `b` hold the same characters.
fn same_chars(a: &str, b: &str) -> (r: bool)
    ensures
        r == (a@ == b@),
{
    let n = a.unicode_len();
    if n != b.unicode_len() {
        return false;
    }
    let mut i: usize = 0;
    while i < n
        invariant
            n == a@.len(),
            n == b@.len(),
            i <= n,
            forall|j: int| 0 <= j < i ==> a@[j] == b@[j],
        decreases n - i,
    {
        if a.get_char(i) != b.get_char(i) {
            return false;
        }
        i = i + 1;
    }
    assert(a@ =~= b@);
    true
}

/// The keyword spelled by `s`, if any.
pub fn keyword(s: &str) -> (r: Option<Keyword>)
    ensures
        r == keyword_of(s@),
{
    if same_chars(s, "k8s-file") {
        Option::Some(Keyword::K8sFile)
    } else if same_chars(s, "journald") {
        Option::Some(Keyword::Journald)
    } else if same_chars(s, "off") {
        Option::Some(Keyword::Off)
    } else if same_chars(s, "null") {
        Option::Some(Keyword::Null)
    } else if same_chars(s, "none") {
        Option::Some(Keyword::NoLogging)
    } else {
        Option::None
    }
}

impl ContainerFields {
    /// Fields with nothing known about the container yet.
    pub fn empty() -> (r: ContainerFields)
        ensures
            r@ == empty_fields(),
    {
        ContainerFields {
            id: String::new(),
            id_full: String::new(),
            tag: Option::None,
            name: Option::None,
        }
    }
}

impl ContainerFields {
    /// The journal fields for a container identifier of at least
    /// `TRUNC_ID_LEN` characters, with its name and tag where given.
    pub fn for_container(id: &str, name: Option<&str>, tag: Option<&str>) -> (r: ContainerFields)
        ensures
            r@ == fields_spec(id@, opt_str_view(name), opt_str_view(tag)),
    {
        let short = ContainerLogging::truncate(id, TRUNC_ID_LEN);
        let tag_field = match tag {
            Option::Some(t) => Option::Some(String::from_str("CONTAINER_TAG=").concat(t)),
            Option::None => Option::None,
        };
        let name_field = match name {
            Option::Some(x) => Option::Some(String::from_str("CONTAINER_NAME=").concat(x)),
            Option::None => Option::None,
        };
        ContainerFields {
            id: String::from_str("CONTAINER_ID=").concat(short),
            id_full: String::from_str("CONTAINER_ID_FULL=").concat(id),
            tag: tag_field,
            name: name_field,
        }
    }

    /// The truncated container identifier entry.
    pub fn id(&self) -> (r: &String)
        ensures
            r@ == self@.id,
    {
        &self.id
    }

    /// The full container identifier entry.
    pub fn id_full(&self) -> (r: &String)
        ensures
            r@ == self@.id_full,
    {
        &self.id_full
    }

    /// The tag entry, if a tag was given.
    pub fn tag(&self) -> (r: &Option<String>)
        ensures
            opt_view(*r) == self@.tag,
    {
        &self.tag
    }

    /// The name entry, if a name was given.
    pub fn name(&self) -> (r: &Option<String>)
        ensures
            opt_view(*r) == self@.name,
    {
        &self.name
    }
}

impl Driver {
    /// The driver a keyword selects when no path comes with it.
    pub fn from_keyword(k: Keyword) -> (r: Driver)
        ensures
            r@ == default_driver(k),
    {
        match k {
            Keyword::K8sFile => Driver::K8sFile(String::new()),
            Keyword::Journald => Driver::Journald(ContainerFields::empty()),
            Keyword::Off => Driver::Off,
            Keyword::Null => Driver::Null,
            Keyword::NoLogging => Driver::NoLogging,
        }
    }
}

/// Index of the first colon in `s`, or its length if there is none.
pub fn find_colon(s: &str) -> (r: usize)
    ensures
        r == first_colon(s@),
{
    let n = s.unicode_len();
    let mut i: usize = 0;
    while i < n
        invariant
            n == s@.len(),
            i <= n,
            first_colon_from(s@, i as int) == first_colon(s@),
        decreases n - i,
    {
        if s.get_char(i) == ':' {
            return i;
        }
        i = i + 1;
    }
    n
}

/// ContainerLogging holds the drivers selected for a container's output.
#[derive(Debug)]
pub struct ContainerLogging {
    drivers: Vec<Driver>,
}

impl ContainerLogging {
    /// The selected drivers, in the order of the log destinations they came from.
    pub closed spec fn drivers_view(&self) -> Seq<DriverView> {
        self.drivers@.map_values(|d: Driver| d@)
    }

    /// Selected log drivers.
    pub fn drivers(&self) -> (r: &Vec<Driver>)
        ensures
            r@.map_values(|d: Driver| d@) == self.drivers_view(),
    {
        &self.drivers
    }

    /// The log destinations as character sequences.
    pub open spec fn paths_view(log_paths: Seq<String>) -> Seq<Seq<char>> {
        log_paths.map_values(|p: String| p@)
    }

    /// Create the container logging from a list of log destinations and the
    /// container's identifier, name and tag. Disabled drivers are left out; the
    /// first destination that cannot be resolved fails the whole list.
    pub fn new(log_paths: &[String], cuuid: Option<&str>, name: Option<&str>, tag: Option<&str>) -> (r: Result<ContainerLogging, LogError>)
        ensures
            match r {
                Ok(l) => resolve_spec(Self::paths_view(log_paths@), opt_str_view(cuuid), opt_str_view(name), opt_str_view(tag))
                    == Ok::<Seq<DriverView>, LogError>(l.drivers_view()),
                Err(e) => resolve_spec(Self::paths_view(log_paths@), opt_str_view(cuuid), opt_str_view(name), opt_str_view(tag))
                    == Err::<Seq<DriverView>, LogError>(e),
            },
    {
        let ghost id = opt_str_view(cuuid);
        let ghost nm = opt_str_view(name);
        let ghost tg = opt_str_view(tag);
        let ghost all = Self::paths_view(log_paths@);
        let mut drivers: Vec<Driver> = Vec::new();
        let mut i: usize = 0;
        proof {
            assert(all.take(0) =~= Seq::<Seq<char>>::empty());
            assert(drivers@.map_values(|d: Driver| d@) =~= Seq::<DriverView>::empty());
        }
        while i < log_paths.len()
            invariant
                i <= log_paths@.len(),
                all == Self::paths_view(log_paths@),
                id == opt_str_view(cuuid),
                nm == opt_str_view(name),
                tg == opt_str_view(tag),
                resolve_spec(all.take(i as int), id, nm, tg) == Ok::<Seq<DriverView>, LogError>(
                    drivers@.map_values(|d: Driver| d@),
                ),
            decreases log_paths@.len() - i,
        {
            let ghost before = drivers@.map_values(|d: Driver| d@);
            let path: &str = log_paths[i].as_str();
            proof {
                assert(all.take(i + 1).drop_last() =~= all.take(i as int));
                assert(all.take(i + 1).last() == path@);
            }
            let driver = Self::parse_log_path(path);
            match driver {
                Err(e) => {
                    proof {
                        lemma_error_persists(all, id, nm, tg, i + 1, e);
                    }
                    return Err(e);
                },
                Ok(Driver::Off) => {},
                Ok(Driver::Null) => {},
                Ok(Driver::NoLogging) => {},
                Ok(Driver::K8sFile(p)) => {
                    drivers.push(Driver::K8sFile(p));
                    proof {
                        assert(drivers@.map_values(|d: Driver| d@) =~= before.push(DriverView::File(p@)));
                    }
                },
                Ok(Driver::Journald(_)) => {
                    match cuuid {
                        Option::None => {
                            proof {
                                lemma_error_persists(all, id, nm, tg, i + 1, LogError::MissingId);
                            }
                            return Err(LogError::MissingId);
                        },
                        Option::Some(c) => {
                            if c.unicode_len() < TRUNC_ID_LEN {
                                proof {
                                    lemma_error_persists(all, id, nm, tg, i + 1, LogError::IdTooShort);
                                }
                                return Err(LogError::IdTooShort);
                            }
                            let f = ContainerFields::for_container(c, name, tag);
                            drivers.push(Driver::Journald(f));
                            proof {
                                assert(drivers@.map_values(|d: Driver| d@) =~= before.push(DriverView::Journal(f@)));
                            }
                        },
                    }
                },
            }
            i = i + 1;
        }
        proof {
            assert(all.take(i as int) =~= all);
        }
        Ok(ContainerLogging { drivers })
    }

    /// Truncate a string to at most `max_chars` characters.
    pub fn truncate(s: &str, max_chars: usize) -> (r: &str)
        ensures
            r@ == truncate_spec(s@, max_chars as nat),
    {
        let n = s.unicode_len();
        if n <= max_chars {
            proof {
                assert(s@.subrange(0, n as int) =~= s@);
            }
            s.substring_char(0, n)
        } else {
            s.substring_char(0, max_chars)
        }
    }

    /// Parses a logging driver from the provided `log_path`.
    ///
    /// `log_path` is either `<DRIVER_NAME>:<PATH_NAME>` or `<PATH_NAME>`, split
    /// on its first colon. Without a colon a driver keyword selects that
    /// driver and anything else is the path of a Kubernetes log file. With a
    /// colon the left side must be a driver keyword; the path is kept for the
    /// file driver, where it must not be empty, and ignored otherwise.
    pub fn parse_log_path(log_path: &str) -> (r: Result<Driver, LogError>)
        ensures
            match r {
                Ok(d) => parse_spec(log_path@) == Ok::<DriverView, LogError>(d@),
                Err(e) => parse_spec(log_path@) == Err::<DriverView, LogError>(e),
            },
    {
        let n = log_path.unicode_len();
        let c = find_colon(log_path);
        if c >= n {
            match keyword(log_path) {
                Option::Some(k) => Ok(Driver::from_keyword(k)),
                Option::None => Ok(Driver::K8sFile(String::from_str(log_path))),
            }
        } else {
            let left = log_path.substring_char(0, c);
            let right = log_path.substring_char(c + 1, n);
            match keyword(left) {
                Option::None => Err(LogError::UnknownDriver),
                Option::Some(Keyword::K8sFile) => {
                    if right.unicode_len() == 0 {
                        Err(LogError::EmptyPath)
                    } else {
                        Ok(Driver::K8sFile(String::from_str(right)))
                    }
                },
                Option::Some(k) => Ok(Driver::from_keyword(k)),
            }
        }
    }
}

} // verus!
