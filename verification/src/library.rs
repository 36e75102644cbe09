//! Finding and loading the client library.
//!
//! The library is a process-global singleton: the first successful load
//! wins, and a later explicit path must name the same file. Loading tries
//! the platform's default search path first, then the per-user install
//! directory with the bundled dependency libraries preloaded. The decisions
//! and messages are made here; the caller opens the files.

use vstd::prelude::*;
use vstd::string::*;

use crate::error::Error;
use crate::text::push_char;

verus! {

/// The file name of the main client library.
pub open spec fn main_lib_text(windows: bool) -> Seq<char> {
    if windows {
        "yascli.dll"@
    } else {
        "libyascli.so"@
    }
}

/// The file name of the main client library on the given platform.
pub fn main_lib_name(windows: bool) -> (result: &'static str)
    ensures
        result@ == main_lib_text(windows),
{
    if windows {
        proof { reveal_strlit("yascli.dll"); }
        "yascli.dll"
    } else {
        proof { reveal_strlit("libyascli.so"); }
        "libyascli.so"
    }
}

/// The dependency libraries shipped next to the main library.
pub open spec fn dep_lib_texts(windows: bool) -> Seq<Seq<char>> {
    if windows {
        seq!["libssl-1_1-x64.dll"@, "libcrypto-1_1-x64.dll"@, "yas_infra.dll"@]
    } else {
        seq!["libcrypto.so"@, "libssl.so"@, "libyas_infra.so"@]
    }
}

/// The dependency libraries shipped next to the main library, in the order
/// they are preloaded.
pub fn dep_lib_names(windows: bool) -> (result: Vec<&'static str>)
    ensures
        result@.len() == 3,
        forall|i: int| 0 <= i < 3 ==> #[trigger] result@[i]@ == dep_lib_texts(windows)[i],
{
    let mut names: Vec<&'static str> = Vec::new();
    if windows {
        proof {
            reveal_strlit("libssl-1_1-x64.dll");
            reveal_strlit("libcrypto-1_1-x64.dll");
            reveal_strlit("yas_infra.dll");
        }
        names.push("libssl-1_1-x64.dll");
        names.push("libcrypto-1_1-x64.dll");
        names.push("yas_infra.dll");
    } else {
        proof {
            reveal_strlit("libcrypto.so");
            reveal_strlit("libssl.so");
            reveal_strlit("libyas_infra.so");
        }
        names.push("libcrypto.so");
        names.push("libssl.so");
        names.push("libyas_infra.so");
    }
    names
}

/// A path with one more component: the separator is added unless the path
/// is empty or already ends with it.
pub open spec fn joined(base: Seq<char>, part: Seq<char>, separator: char) -> Seq<char> {
    if base.len() == 0 {
        part
    } else if base.last() == separator {
        base + part
    } else {
        base + seq![separator] + part
    }
}

/// Append a path component.
pub fn join_path(base: &str, part: &str, separator: char) -> (result: String)
    ensures
        result@ == joined(base@, part@, separator),
{
    let mut out = base.to_owned();
    let n = base.unicode_len();
    if n > 0 {
        let last = base.get_char(n - 1);
        if last != separator {
            let mut sep = String::new();
            push_char(&mut sep, separator);
            out.append(sep.as_str());
        }
    }
    out.append(part);
    proof {
        if base@.len() > 0 && base@.last() != separator {
            assert(out@ =~= base@ + seq![separator] + part@);
        }
    }
    out
}

/// The per-user client library directory under a home directory:
/// `home/.yashandb/client/lib`.
pub open spec fn user_lib_dir_text(home: Seq<char>, separator: char) -> Seq<char> {
    joined(joined(joined(home, ".yashandb"@, separator), "client"@, separator), "lib"@, separator)
}

/// Build the per-user client library directory from a home directory, with
/// the platform's path separator.
pub fn user_lib_dir_from(home: &str, separator: char) -> (result: String)
    ensures
        result@ == user_lib_dir_text(home@, separator),
{
    let a = join_path(home, ".yashandb", separator);
    let b = join_path(a.as_str(), "client", separator);
    join_path(b.as_str(), "lib", separator)
}

/// The attempts joined with `, `.
pub open spec fn comma_joined(items: Seq<Seq<char>>) -> Seq<char>
    decreases items.len(),
{
    if items.len() == 0 {
        Seq::empty()
    } else if items.len() == 1 {
        items[0]
    } else {
        comma_joined(items.drop_last()) + ", "@ + items.last()
    }
}

/// The message when the library could not be found anywhere.
pub open spec fn not_found_text(main: Seq<char>, tried: Seq<Seq<char>>) -> Seq<char> {
    "failed to load "@ + main + "; tried "@ + comma_joined(tried)
}

/// The error when the main library could not be loaded, listing every
/// attempt and its reason.
pub fn not_found(main: &str, tried: &Vec<String>) -> (result: Error)
    ensures
        result matches Error::ClientLibrary(m) && m@ == not_found_text(
            main@,
            tried@.map_values(|t: String| t@),
        ),
{
    let mut list = String::new();
    let mut i: usize = 0;
    while i < tried.len()
        invariant
            i <= tried@.len(),
            list@ == comma_joined(tried@.take(i as int).map_values(|t: String| t@)),
        decreases tried@.len() - i,
    {
        let ghost before = tried@.take(i as int).map_values(|t: String| t@);
        let ghost after = tried@.take(i + 1).map_values(|t: String| t@);
        proof {
            assert(after.drop_last() =~= before);
            assert(after.last() == tried@[i as int]@);
        }
        if i > 0 {
            list.append(", ");
        } else {
            assert(after =~= seq![tried@[0]@]);
        }
        list.append(tried[i].as_str());
        i = i + 1;
    }
    assert(tried@.take(tried@.len() as int) =~= tried@);
    let mut msg = "failed to load ".to_owned();
    msg.append(main);
    msg.append("; tried ");
    msg.append(list.as_str());
    Error::ClientLibrary(msg)
}

/// One failed attempt: the place tried and the loader's reason.
pub open spec fn attempt_text(place: Seq<char>, reason: Seq<char>) -> Seq<char> {
    place + ": "@ + reason
}

fn attempt(place: &str, reason: &str) -> (result: String)
    ensures
        result@ == attempt_text(place@, reason@),
{
    let mut s = place.to_owned();
    s.append(": ");
    s.append(reason);
    s
}

/// Where the loaded library came from.
#[derive(Debug)]
pub enum LibrarySource {
    /// Resolved by name through the platform's default search path.
    DefaultSearchPath,
    /// Loaded from this file (its canonical path when known).
    File(String),
}

/// How a library source is described in messages.
pub open spec fn source_text(source: LibrarySource, main: Seq<char>) -> Seq<char> {
    match source {
        LibrarySource::DefaultSearchPath => main + " via the default search path"@,
        LibrarySource::File(path) => path@,
    }
}

/// A human-readable description of where the library was loaded from.
pub fn source_display(source: &LibrarySource, main: &str) -> (result: String)
    ensures
        result@ == source_text(*source, main@),
{
    match source {
        LibrarySource::DefaultSearchPath => {
            let mut s = main.to_owned();
            s.append(" via the default search path");
            s
        },
        LibrarySource::File(path) => path.clone(),
    }
}

/// What a loading request needs.
#[derive(Debug)]
pub enum LoadStep {
    /// The library is loaded and may be used.
    Ready,
    /// Load by auto-discovery (see [`AutoLoad`]).
    LoadAuto,
    /// Load the main library from this path.
    LoadExplicit(String),
    /// The request is refused.
    Failed(Error),
}

/// The message for an explicit path that differs from the loaded library.
pub open spec fn conflict_text(loaded: Seq<char>, path: Seq<char>) -> Seq<char> {
    "library already loaded from "@ + loaded + ", refusing to load from "@ + path
}

/// Load the client library by auto-discovery, unless it is loaded already:
/// auto-discovery never conflicts with a loaded library.
pub fn load_library(loaded: bool) -> (result: LoadStep)
    ensures
        loaded ==> result is Ready,
        !loaded ==> result is LoadAuto,
{
    if loaded {
        LoadStep::Ready
    } else {
        LoadStep::LoadAuto
    }
}

/// Load the client library from an explicit path. When a library is loaded
/// already (`loaded` gives how its source is shown and whether it is the
/// same file as `path`), the same file is accepted again and another one is
/// refused: the first load wins. Otherwise the path is loaded; a failure
/// leaves the library unloaded, so a later request retries.
pub fn load_library_with_path(path: &str, loaded: Option<(String, bool)>) -> (result: LoadStep)
    ensures
        loaded is None ==> (result matches LoadStep::LoadExplicit(p) && p@ == path@),
        loaded matches Some((_, same)) && same ==> result is Ready,
        loaded is Some && !loaded->Some_0.1 ==> (result matches LoadStep::Failed(
            Error::ClientLibrary(m),
        ) && m@ == conflict_text(loaded->Some_0.0@, path@)),
{
    match loaded {
        None => LoadStep::LoadExplicit(path.to_owned()),
        Some((shown, same)) => {
            if same {
                LoadStep::Ready
            } else {
                let mut msg = "library already loaded from ".to_owned();
                msg.append(shown.as_str());
                msg.append(", refusing to load from ");
                msg.append(path);
                LoadStep::Failed(Error::ClientLibrary(msg))
            }
        },
    }
}

/// The message when an explicit path cannot be loaded.
pub open spec fn explicit_failure_text(path: Seq<char>, reason: Seq<char>) -> Seq<char> {
    "failed to load "@ + path + ": "@ + reason
}

/// The error when the library at an explicit path cannot be loaded.
pub fn explicit_load_error(path: &str, reason: &str) -> (result: Error)
    ensures
        result matches Error::ClientLibrary(m) && m@ == explicit_failure_text(path@, reason@),
{
    let mut msg = "failed to load ".to_owned();
    msg.append(path);
    msg.append(": ");
    msg.append(reason);
    Error::ClientLibrary(msg)
}

/// An action of auto-discovery.
#[derive(Debug)]
pub enum AutoLoadStep {
    /// Open the main library by its bare name through the default search
    /// path; reply with `Ok(())` or the loader's reason.
    OpenByName(String),
    /// Look up the home directory; reply with it, or `None` when unset.
    ReadHome,
    /// Preload each dependency from `dir` (failures are ignored), then open
    /// `main`; reply with the canonical path of the opened file (or `main`
    /// when it cannot be canonicalized), or the loader's reason.
    OpenInDir {
        /// The per-user library directory.
        dir: String,
        /// The dependency files, in preload order.
        deps: Vec<String>,
        /// The main library file.
        main: String,
    },
    /// Loading is over.
    Done(Result<LibrarySource, Error>),
}

#[derive(Clone, Copy, Debug, PartialEq, Eq, Structural)]
enum AutoPhase {
    ByName,
    Home,
    InDir,
    Done,
}

/// Auto-discovery of the client library: the bare name through the default
/// search path first, then the per-user directory under the home directory
/// with the bundled dependencies preloaded. When both fail, the error lists
/// every attempt with its reason.
#[derive(Debug)]
pub struct AutoLoad {
    windows: bool,
    separator: char,
    phase: AutoPhase,
    tried: Vec<String>,
    main_path: String,
}

impl AutoLoad {
    /// Whether the search path attempt is awaited.
    pub closed spec fn awaits_name(&self) -> bool {
        self.phase == AutoPhase::ByName
    }

    /// Whether the home directory is awaited.
    pub closed spec fn awaits_home(&self) -> bool {
        self.phase == AutoPhase::Home
    }

    /// Whether the per-user directory attempt is awaited.
    pub closed spec fn awaits_dir(&self) -> bool {
        self.phase == AutoPhase::InDir
    }

    /// The failed attempts so far.
    pub closed spec fn spec_tried(&self) -> Seq<Seq<char>> {
        self.tried@.map_values(|t: String| t@)
    }

    /// The main library file tried in the per-user directory.
    pub closed spec fn spec_main_path(&self) -> Seq<char> {
        self.main_path@
    }

    /// The platform.
    pub closed spec fn spec_windows(&self) -> bool {
        self.windows
    }

    /// The path separator.
    pub closed spec fn spec_separator(&self) -> char {
        self.separator
    }

    /// Start auto-discovery on the given platform: first open by name.
    pub fn new(windows: bool, separator: char) -> (result: (AutoLoad, AutoLoadStep))
        ensures
            result.0.awaits_name(),
            result.0.spec_tried().len() == 0,
            result.0.spec_windows() == windows,
            result.0.spec_separator() == separator,
            result.1 matches AutoLoadStep::OpenByName(n) && n@ == main_lib_text(windows),
    {
        let machine = AutoLoad {
            windows,
            separator,
            phase: AutoPhase::ByName,
            tried: Vec::new(),
            main_path: String::new(),
        };
        proof {
            assert(machine.tried@.map_values(|t: String| t@) =~= Seq::<Seq<char>>::empty());
        }
        (machine, AutoLoadStep::OpenByName(main_lib_name(windows).to_owned()))
    }

    /// Continue after opening by name: done on success, otherwise the
    /// attempt is recorded and the home directory is needed.
    pub fn opened_by_name(&mut self, reply: Result<(), String>) -> (result: AutoLoadStep)
        requires
            old(self).awaits_name(),
        ensures
            final(self).spec_windows() == old(self).spec_windows(),
            final(self).spec_separator() == old(self).spec_separator(),
            reply is Ok ==> (result matches AutoLoadStep::Done(Ok(source))
                && source is DefaultSearchPath),
            reply matches Err(reason) ==> result is ReadHome && final(self).awaits_home()
                && final(self).spec_tried() == old(self).spec_tried().push(
                attempt_text(main_lib_text(old(self).spec_windows()), reason@),
            ),
    {
        match reply {
            Ok(()) => {
                self.phase = AutoPhase::Done;
                AutoLoadStep::Done(Ok(LibrarySource::DefaultSearchPath))
            },
            Err(reason) => {
                let entry = attempt(main_lib_name(self.windows), reason.as_str());
                let ghost before = self.tried@;
                self.tried.push(entry);
                proof {
                    assert(self.tried@.map_values(|t: String| t@) =~= before.map_values(
                        |t: String| t@,
                    ).push(entry@));
                }
                self.phase = AutoPhase::Home;
                AutoLoadStep::ReadHome
            },
        }
    }

    /// Continue with the home directory: without one, loading fails listing
    /// the attempts; with one, the per-user directory is tried.
    pub fn home(&mut self, home: Option<String>) -> (result: AutoLoadStep)
        requires
            old(self).awaits_home(),
        ensures
            final(self).spec_windows() == old(self).spec_windows(),
            final(self).spec_separator() == old(self).spec_separator(),
            final(self).spec_tried() == old(self).spec_tried(),
            home is None ==> (result matches AutoLoadStep::Done(Err(Error::ClientLibrary(m)))
                && m@ == not_found_text(main_lib_text(old(self).spec_windows()), old(
                self,
            ).spec_tried())),
            home is Some ==> final(self).awaits_dir() && (result matches AutoLoadStep::OpenInDir {
                dir,
                deps,
                main,
            } && dir@ == user_lib_dir_text(home->Some_0@, old(self).spec_separator()) && deps@.len() == 3 && (
            forall|i: int|
                0 <= i < 3 ==> #[trigger] deps@[i]@ == joined(
                    dir@,
                    dep_lib_texts(old(self).spec_windows())[i],
                    old(self).spec_separator(),
                )) && main@ == joined(
                dir@,
                main_lib_text(old(self).spec_windows()),
                old(self).spec_separator(),
            ) && final(self).spec_main_path() == main@),
    {
        match home {
            None => {
                self.phase = AutoPhase::Done;
                AutoLoadStep::Done(Err(not_found(main_lib_name(self.windows), &self.tried)))
            },
            Some(h) => {
                let dir = user_lib_dir_from(h.as_str(), self.separator);
                let names = dep_lib_names(self.windows);
                let mut deps: Vec<String> = Vec::new();
                let mut i: usize = 0;
                while i < names.len()
                    invariant
                        i <= names@.len(),
                        names@.len() == 3,
                        deps@.len() == i,
                        forall|k: int|
                            0 <= k < 3 ==> #[trigger] names@[k]@ == dep_lib_texts(self.windows)[k],
                        forall|k: int|
                            0 <= k < i ==> #[trigger] deps@[k]@ == joined(
                                dir@,
                                dep_lib_texts(self.windows)[k],
                                self.separator,
                            ),
                    decreases names@.len() - i,
                {
                    deps.push(join_path(dir.as_str(), names[i], self.separator));
                    i = i + 1;
                }
                let main = join_path(dir.as_str(), main_lib_name(self.windows), self.separator);
                self.main_path = main.clone();
                self.phase = AutoPhase::InDir;
                AutoLoadStep::OpenInDir { dir, deps, main }
            },
        }
    }

    /// Continue after opening the main library in the per-user directory:
    /// on success its source is the file that was opened; otherwise loading
    /// fails listing both attempts.
    pub fn opened_in_dir(&mut self, reply: Result<String, String>) -> (result: AutoLoadStep)
        requires
            old(self).awaits_dir(),
        ensures
            reply is Ok ==> (result matches AutoLoadStep::Done(Ok(LibrarySource::File(p)))
                && p@ == reply->Ok_0@),
            reply is Err ==> (result matches AutoLoadStep::Done(Err(Error::ClientLibrary(m))) && m@
                == not_found_text(
                main_lib_text(old(self).spec_windows()),
                old(self).spec_tried().push(
                    attempt_text(old(self).spec_main_path(), reply->Err_0@),
                ),
            )),
    {
        self.phase = AutoPhase::Done;
        match reply {
            Ok(path) => AutoLoadStep::Done(Ok(LibrarySource::File(path))),
            Err(reason) => {
                let entry = attempt(self.main_path.as_str(), reason.as_str());
                let ghost before = self.tried@;
                self.tried.push(entry);
                proof {
                    assert(self.tried@.map_values(|t: String| t@) =~= before.map_values(
                        |t: String| t@,
                    ).push(entry@));
                }
                AutoLoadStep::Done(Err(not_found(main_lib_name(self.windows), &self.tried)))
            },
        }
    }
}

} // verus!
