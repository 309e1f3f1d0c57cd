//! The handlers dylib on disk: where cargo puts it, where a fresh copy of it is staged, and which
//! staged copies are swept away.

use crate::paths::{
    file_name, has_no_separator, is_directory_below, is_directory_name, is_plain_component, join,
    lies_in, path_display, path_file_name, path_join,
};
use crate::text::{
    contains, contains_text, lemma_contains_text, occurs_at, replace_char, replaced, text_view,
};
use std::path::PathBuf;
use std::time::Duration;
use vstd::prelude::*;

verus! {

/// The kinds of platform that name dynamic libraries differently.
#[derive(Clone, Copy, Debug, PartialEq, Eq, Structural)]
pub enum Platform {
    MacOs,
    Windows,
    Other,
}

/// What a dylib's file name starts and ends with on a platform: prefix and extension.
pub open spec fn naming(platform: Platform) -> (Seq<char>, Seq<char>) {
    match platform {
        Platform::MacOs => ("lib"@, "dylib"@),
        Platform::Windows => (""@, "dll"@),
        Platform::Other => ("lib"@, "so"@),
    }
}

/// The library name of a package: cargo turns hyphens into underscores.
pub open spec fn lib_name(package: Seq<char>) -> Seq<char> {
    replaced(package, '-', '_')
}

/// The file name of the dylib that cargo builds for a package.
pub open spec fn dylib_file_name(platform: Platform, package: Seq<char>) -> Seq<char> {
    naming(platform).0 + lib_name(package) + "."@ + naming(platform).1
}

/// The file name of a staged copy of that dylib.
pub open spec fn staged_file_name(
    platform: Platform,
    package: Seq<char>,
    suffix: Seq<char>,
) -> Seq<char> {
    naming(platform).0 + lib_name(package) + "-"@ + suffix + "."@ + naming(platform).1
}

/// Where cargo puts the dylib of a package.
pub open spec fn built_path(
    workspace_root: PathBuf,
    package: Seq<char>,
    platform: Platform,
) -> PathBuf {
    path_join(path_join(workspace_root, "target/debug"@), dylib_file_name(platform, package))
}

/// The directory of the staged copies.
pub open spec fn staging_path(workspace_root: PathBuf) -> PathBuf {
    path_join(path_join(workspace_root, "target"@), "axum-hotreload"@)
}

/// Where the copy with the given suffix is staged.
pub open spec fn staged_path(
    workspace_root: PathBuf,
    package: Seq<char>,
    platform: Platform,
    suffix: Seq<char>,
) -> PathBuf {
    path_join(staging_path(workspace_root), staged_file_name(platform, package, suffix))
}

/// A lower-case hexadecimal digit.
pub open spec fn is_lower_hex(c: char) -> bool {
    '0' <= c <= '9' || 'a' <= c <= 'f'
}

/// A random (version 4) UUID in its hyphenated form.
pub open spec fn is_uuid_v4(s: Seq<char>) -> bool {
    &&& s.len() == 36
    &&& forall|i: int|
        0 <= i < 36 ==> if i == 8 || i == 13 || i == 18 || i == 23 {
            #[trigger] s[i] == '-'
        } else {
            is_lower_hex(s[i])
        }
    &&& s[14] == '4'
    &&& s[19] == '8' || s[19] == '9' || s[19] == 'a' || s[19] == 'b'
}

/// `uuid::Uuid::new_v4`, shown by its `Display`: 36 characters, lower-case hexadecimal digits in
/// groups of 8, 4, 4, 4 and 12 with hyphens between them, with the version and the variant of a
/// random UUID. Nothing is said of which of these texts it is, since that is left to chance. It
/// panics where the operating system has no randomness to give, which no argument decides.
#[verifier::external_body]
fn random_suffix() -> (res: String)
    ensures
        is_uuid_v4(res@),
{
    uuid::Uuid::new_v4().to_string()
}

/// The text is one that [`random_suffix`] gave.
pub closed spec fn is_drawn(suffix: Seq<char>) -> bool {
    exists|drawn: String| #[trigger] call_ensures(random_suffix, (), drawn) && drawn@ == suffix
}

/// The text is a random UUID that was drawn for a copy.
pub open spec fn is_fresh_suffix(suffix: Seq<char>) -> bool {
    is_drawn(suffix) && is_uuid_v4(suffix)
}

/// Draws a suffix for a copy.
pub(crate) fn draw_suffix() -> (res: String)
    ensures
        is_fresh_suffix(res@),
{
    random_suffix()
}

/// How long ago a staged file was written, as far as the file system tells.
pub enum Modified {
    /// The file system gives no time.
    Unknown,
    /// The time lies ahead of the clock.
    Future,
    /// That much time has passed since then.
    Ago(Duration),
}

/// A file found in the staging directory.
pub struct StagedFile {
    pub path: PathBuf,
    pub modified: Modified,
}

/// The whole seconds of a duration.
pub uninterp spec fn whole_secs(d: Duration) -> u64;

/// `Duration::as_secs` gives the whole seconds of the duration, which depend on it alone.
pub assume_specification[ Duration::as_secs ](d: &Duration) -> (res: u64)
    ensures
        res == whole_secs(*d),
;

/// The age of a file in whole seconds, as far as it is known. A file from ahead of the clock has
/// the age zero.
pub open spec fn age_secs(modified: Modified) -> Option<u64> {
    match modified {
        Modified::Unknown => None,
        Modified::Future => Some(0),
        Modified::Ago(d) => Some(whole_secs(d)),
    }
}

/// Written within the last two seconds: likely the current generation.
pub open spec fn is_young(age: Option<u64>) -> bool {
    match age {
        Some(secs) => secs < 2,
        None => false,
    }
}

/// The file name is Unicode and holds the library name of the package.
pub open spec fn is_named_for(package: Seq<char>, name: Option<Seq<char>>) -> bool {
    match name {
        Some(name) => contains_text(name, lib_name(package)),
        None => false,
    }
}

/// A file with this name and of this age is one that a sweep for the package removes.
pub open spec fn is_retired(package: Seq<char>, name: Option<Seq<char>>, age: Option<u64>) -> bool {
    is_named_for(package, name) && !is_young(age)
}

impl StagedFile {
    /// A sweep for the package removes this file.
    pub open spec fn retired(self, package: Seq<char>) -> bool {
        is_retired(package, path_file_name(self.path), age_secs(self.modified))
    }
}

/// The paths that a sweep for the package removes, in the order of the listing.
pub open spec fn swept(package: Seq<char>, files: Seq<StagedFile>) -> Seq<PathBuf> {
    files.filter(|file: StagedFile| file.retired(package)).map_values(
        |file: StagedFile| file.path,
    )
}

/// The files that a sweep for the package leaves in place.
pub open spec fn kept(package: Seq<char>, files: Seq<StagedFile>) -> Seq<StagedFile> {
    files.filter(|file: StagedFile| !file.retired(package))
}

/// The dylib file name's prefix and extension.
pub fn dylib_naming(platform: Platform) -> (res: (&'static str, &'static str))
    ensures
        (res.0@, res.1@) == naming(platform),
{
    match platform {
        Platform::MacOs => ("lib", "dylib"),
        Platform::Windows => ("", "dll"),
        Platform::Other => ("lib", "so"),
    }
}

/// The file name of the dylib that cargo builds for `package`.
pub fn dylib_name(platform: Platform, package: &str) -> (res: String)
    ensures
        res@ == dylib_file_name(platform, package@),
{
    let (prefix, ext) = dylib_naming(platform);
    // Cargo emits dylib file names with hyphens converted to underscores.
    let lib_name = replace_char(package, '-', '_');
    prefix.to_string().concat(lib_name.as_str()).concat(".").concat(ext)
}

/// The file name of the copy that is staged under the suffix.
pub fn staged_name(platform: Platform, package: &str, suffix: &str) -> (res: String)
    ensures
        res@ == staged_file_name(platform, package@, suffix@),
{
    let (prefix, ext) = dylib_naming(platform);
    let lib_name = replace_char(package, '-', '_');
    prefix.to_string().concat(lib_name.as_str()).concat("-").concat(suffix).concat(".").concat(ext)
}

/// The dylib that cargo builds for `package` in the workspace.
pub fn built_dylib_path(workspace_root: &PathBuf, package: &str, platform: Platform) -> (res:
    PathBuf)
    ensures
        res == built_path(*workspace_root, package@, platform),
        has_no_separator(package@) ==> path_file_name(res) == Some(
            dylib_file_name(platform, package@),
        ) && lies_in(res, "debug"@),
{
    let name = dylib_name(platform, package);
    let dir = join(workspace_root, "target/debug");
    proof {
        lemma_directory_names();
        assert(is_directory_below(dir, "target"@, "debug"@));
        if has_no_separator(package@) {
            lemma_built_name_is_plain(platform, package@);
        }
    }
    join(&dir, name.as_str())
}

/// The directory that holds the staged copies.
pub fn staging_dir(workspace_root: &PathBuf) -> (res: PathBuf)
    ensures
        res == staging_path(*workspace_root),
{
    join(&join(workspace_root, "target"), "axum-hotreload")
}

/// Where the copy with the given suffix is staged.
pub fn staged_dylib_path(
    workspace_root: &PathBuf,
    package: &str,
    platform: Platform,
    suffix: &str,
) -> (res: PathBuf)
    ensures
        res == staged_path(*workspace_root, package@, platform, suffix@),
        has_no_separator(package@) && has_no_separator(suffix@) ==> path_file_name(res) == Some(
            staged_file_name(platform, package@, suffix@),
        ) && lies_in(res, "axum-hotreload"@),
{
    let name = staged_name(platform, package, suffix);
    let dir = staging_dir(workspace_root);
    proof {
        lemma_directory_names();
        assert(is_directory_below(dir, "target"@, "axum-hotreload"@));
        if has_no_separator(package@) && has_no_separator(suffix@) {
            lemma_staged_name_is_plain(platform, package@, suffix@);
        }
    }
    join(&dir, name.as_str())
}

/// The directories that the library goes down into are ordinary ones.
proof fn lemma_directory_names()
    ensures
        is_directory_name("target"@),
        is_directory_name("debug"@),
        is_directory_name("axum-hotreload"@),
        "target/debug"@ == "target"@ + "/"@ + "debug"@,
{
    reveal_strlit("target");
    reveal_strlit("debug");
    reveal_strlit("axum-hotreload");
    reveal_strlit("target/debug");
    reveal_strlit("/");
    reveal_strlit(".");
    reveal_strlit("..");
    reveal_strlit("UNC");
    assert("target/debug"@ =~= "target"@ + "/"@ + "debug"@);
}

/// No part of a dylib's name that the library adds holds a separator.
proof fn lemma_naming_has_no_separator(platform: Platform)
    ensures
        has_no_separator(naming(platform).0),
        has_no_separator(naming(platform).1),
        has_no_separator("-"@),
        has_no_separator("."@),
        naming(platform).1.len() >= 2,
        "-"@.len() == 1,
        "."@.len() == 1,
        ".."@.len() == 2,
{
    reveal_strlit("lib");
    reveal_strlit("");
    reveal_strlit("-");
    reveal_strlit(".");
    reveal_strlit("..");
    reveal_strlit("dylib");
    reveal_strlit("dll");
    reveal_strlit("so");
}

/// Texts without a separator stay so when they are put together.
proof fn lemma_no_separator_in_sum(a: Seq<char>, b: Seq<char>)
    requires
        has_no_separator(a),
        has_no_separator(b),
    ensures
        has_no_separator(a + b),
{
    let sum = a + b;
    assert forall|i: int| 0 <= i < sum.len() implies sum[i] != '/' && sum[i] != '\\' && sum[i]
        != ':' by {
        if i < a.len() {
            assert(a.contains(a[i]));
        } else {
            assert(b.contains(b[i - a.len()]));
        }
    }
}

/// The library name holds a separator only where the package name does.
proof fn lemma_no_separator_in_lib_name(package: Seq<char>)
    requires
        has_no_separator(package),
    ensures
        has_no_separator(lib_name(package)),
{
    let name = lib_name(package);
    assert forall|i: int| 0 <= i < name.len() implies name[i] != '/' && name[i] != '\\' && name[i]
        != ':' by {
        assert(package.contains(package[i]));
    }
}

proof fn lemma_built_name_is_plain(platform: Platform, package: Seq<char>)
    requires
        has_no_separator(package),
    ensures
        is_plain_component(dylib_file_name(platform, package)),
{
    let (prefix, ext) = naming(platform);
    lemma_naming_has_no_separator(platform);
    lemma_no_separator_in_lib_name(package);
    lemma_no_separator_in_sum(prefix, lib_name(package));
    lemma_no_separator_in_sum(prefix + lib_name(package), "."@);
    lemma_no_separator_in_sum(prefix + lib_name(package) + "."@, ext);
}

proof fn lemma_staged_name_is_plain(platform: Platform, package: Seq<char>, suffix: Seq<char>)
    requires
        has_no_separator(package),
        has_no_separator(suffix),
    ensures
        is_plain_component(staged_file_name(platform, package, suffix)),
{
    let (prefix, ext) = naming(platform);
    lemma_naming_has_no_separator(platform);
    lemma_no_separator_in_lib_name(package);
    lemma_no_separator_in_sum(prefix, lib_name(package));
    lemma_no_separator_in_sum(prefix + lib_name(package), "-"@);
    lemma_no_separator_in_sum(prefix + lib_name(package) + "-"@, suffix);
    lemma_no_separator_in_sum(prefix + lib_name(package) + "-"@ + suffix, "."@);
    lemma_no_separator_in_sum(prefix + lib_name(package) + "-"@ + suffix + "."@, ext);
}

/// Whether a sweep for the package removes a file with this name and of this age in whole seconds:
/// it is named for the package and was not written within the last two seconds.
pub fn is_retired_file(package: &str, name: &Option<String>, age: Option<u64>) -> (res: bool)
    ensures
        res == is_retired(package@, text_view(*name), age),
{
    let lib_name = replace_char(package, '-', '_');
    let named = match name {
        Some(name) => contains(name.as_str(), lib_name.as_str()),
        None => false,
    };
    // Files written in the last two seconds are likely the current generation. Older ones belong
    // to retired generations.
    let young = match age {
        Some(secs) => secs < 2,
        None => false,
    };
    named && !young
}

impl StagedFile {
    /// Whether a sweep for the package removes this file.
    pub fn is_retired(&self, package: &str) -> (res: bool)
        ensures
            res == self.retired(package@),
    {
        let name = file_name(&self.path);
        let age: Option<u64> = match &self.modified {
            Modified::Unknown => None,
            Modified::Future => Some(0),
            Modified::Ago(d) => Some(d.as_secs()),
        };
        is_retired_file(package, &name, age)
    }
}

/// The files to remove from the staging directory, out of those listed there.
pub fn sweep_staging(package: &str, files: &Vec<StagedFile>) -> (res: Vec<PathBuf>)
    ensures
        res@ == swept(package@, files@),
{
    let mut res: Vec<PathBuf> = Vec::new();
    let mut i: usize = 0;
    proof {
        assert(files@.take(0) =~= Seq::empty());
        reveal(Seq::filter);
        assert(swept(package@, files@.take(0)) =~= Seq::empty());
    }
    while i < files.len()
        invariant
            i <= files@.len(),
            res@ == swept(package@, files@.take(i as int)),
        decreases files@.len() - i,
    {
        proof {
            lemma_swept_push(package@, files@.take(i as int), files@[i as int]);
            assert(files@.take(i as int).push(files@[i as int]) =~= files@.take(i + 1));
        }
        if files[i].is_retired(package) {
            res.push(files[i].path.clone());
        }
        i += 1;
    }
    assert(files@.take(i as int) =~= files@);
    res
}

proof fn lemma_swept_push(package: Seq<char>, files: Seq<StagedFile>, file: StagedFile)
    ensures
        swept(package, files.push(file)) == if file.retired(package) {
            swept(package, files).push(file.path)
        } else {
            swept(package, files)
        },
{
    reveal(Seq::filter);
    assert(files.push(file).drop_last() =~= files);
    let retired = |f: StagedFile| f.retired(package);
    assert(files.push(file).filter(retired) == if retired(file) {
        files.filter(retired).push(file)
    } else {
        files.filter(retired)
    });
    assert(swept(package, files.push(file)) =~= if file.retired(package) {
        swept(package, files).push(file.path)
    } else {
        swept(package, files)
    });
}

/// The library name is as long as the package name, has no hyphen, and is its own library name.
pub proof fn law_lib_name(package: Seq<char>)
    ensures
        lib_name(package).len() == package.len(),
        !lib_name(package).contains('-'),
        lib_name(lib_name(package)) == lib_name(package),
{
    assert(lib_name(lib_name(package)) =~= lib_name(package));
}

/// The library name differs from the package name at hyphens alone: it has an underscore wherever
/// the package name has a hyphen, and the package name's own character everywhere else.
pub proof fn law_lib_name_differs_at_hyphens_alone(package: Seq<char>)
    ensures
        lib_name(package).len() == package.len(),
        forall|i: int|
            0 <= i < package.len() && package[i] == '-' ==> #[trigger] lib_name(package)[i] == '_',
        forall|i: int|
            0 <= i < package.len() && package[i] != '-' ==> #[trigger] lib_name(package)[i]
                == package[i],
{
}

/// A text that has an underscore where the package name has a hyphen, and the package name's own
/// character everywhere else, is the library name.
proof fn lemma_lib_name_is(package: Seq<char>, lib: Seq<char>)
    requires
        lib.len() == package.len(),
        forall|i: int|
            0 <= i < package.len() ==> #[trigger] lib[i] == if package[i] == '-' {
                '_'
            } else {
                package[i]
            },
    ensures
        lib_name(package) == lib,
{
    assert(lib_name(package) =~= lib);
}

/// How dylibs are named on each platform.
pub proof fn law_naming(platform: Platform, res: (&'static str, &'static str))
    requires
        call_ensures(dylib_naming, (platform,), res),
    ensures
        platform is Windows ==> res.0@ == ""@ && res.1@ == "dll"@,
        platform is MacOs ==> res.0@ == "lib"@ && res.1@ == "dylib"@,
        platform is Other ==> res.0@ == "lib"@ && res.1@ == "so"@,
{
}

/// Where the dylib of a package is: under `target/debug` in the workspace, and named by the
/// platform's prefix, the package name with underscores for hyphens, and the platform's
/// extension.
pub proof fn law_dylib_is_where_cargo_puts_it(
    workspace_root: &PathBuf,
    package: &str,
    platform: Platform,
    lib: Seq<char>,
    res: PathBuf,
)
    requires
        lib.len() == package@.len(),
        forall|i: int|
            0 <= i < package@.len() ==> #[trigger] lib[i] == if package@[i] == '-' {
                '_'
            } else {
                package@[i]
            },
        call_ensures(crate::dylib_path, (workspace_root, package, platform), res),
    ensures
        ({
            let dir = path_join(*workspace_root, "target/debug"@);
            match platform {
                Platform::MacOs => res == path_join(dir, "lib"@ + lib + ".dylib"@),
                Platform::Windows => res == path_join(dir, lib + ".dll"@),
                Platform::Other => res == path_join(dir, "lib"@ + lib + ".so"@),
            }
        }),
{
    lemma_lib_name_is(package@, lib);
    lemma_extensions();
    let name = dylib_file_name(platform, package@);
    assert(platform is MacOs ==> name =~= "lib"@ + lib + ".dylib"@);
    assert(platform is Windows ==> name =~= lib + ".dll"@);
    assert(platform is Other ==> name =~= "lib"@ + lib + ".so"@);
}

/// Where a copy is staged: in `axum-hotreload` under `target` in the workspace, and named like
/// the dylib with a hyphen and the suffix behind the library name.
pub proof fn law_copy_is_staged_under_its_suffix(
    workspace_root: &PathBuf,
    package: &str,
    platform: Platform,
    suffix: &str,
    lib: Seq<char>,
    dir: PathBuf,
    res: PathBuf,
)
    requires
        lib.len() == package@.len(),
        forall|i: int|
            0 <= i < package@.len() ==> #[trigger] lib[i] == if package@[i] == '-' {
                '_'
            } else {
                package@[i]
            },
        call_ensures(staging_dir, (workspace_root,), dir),
        call_ensures(staged_dylib_path, (workspace_root, package, platform, suffix), res),
    ensures
        dir == path_join(path_join(*workspace_root, "target"@), "axum-hotreload"@),
        match platform {
            Platform::MacOs => res == path_join(dir, "lib"@ + lib + "-"@ + suffix@ + ".dylib"@),
            Platform::Windows => res == path_join(dir, lib + "-"@ + suffix@ + ".dll"@),
            Platform::Other => res == path_join(dir, "lib"@ + lib + "-"@ + suffix@ + ".so"@),
        },
{
    lemma_lib_name_is(package@, lib);
    lemma_extensions();
    let name = staged_file_name(platform, package@, suffix@);
    assert(platform is MacOs ==> name =~= "lib"@ + lib + "-"@ + suffix@ + ".dylib"@);
    assert(platform is Windows ==> name =~= lib + "-"@ + suffix@ + ".dll"@);
    assert(platform is Other ==> name =~= "lib"@ + lib + "-"@ + suffix@ + ".so"@);
}

/// The file names of the dylib and of its copies are those that their paths end with.
pub proof fn law_names(
    workspace_root: PathBuf,
    package: &str,
    platform: Platform,
    suffix: &str,
    dylib: String,
    staged: String,
)
    requires
        call_ensures(dylib_name, (platform, package), dylib),
        call_ensures(staged_name, (platform, package, suffix), staged),
    ensures
        built_path(workspace_root, package@, platform) == path_join(
            path_join(workspace_root, "target/debug"@),
            dylib@,
        ),
        staged_path(workspace_root, package@, platform, suffix@) == path_join(
            path_join(path_join(workspace_root, "target"@), "axum-hotreload"@),
            staged@,
        ),
{
}

proof fn lemma_extensions()
    ensures
        "."@ + "dylib"@ == ".dylib"@,
        "."@ + "dll"@ == ".dll"@,
        "."@ + "so"@ == ".so"@,
        ""@.len() == 0,
{
    reveal_strlit("");
    reveal_strlit(".");
    reveal_strlit("dylib");
    reveal_strlit("dll");
    reveal_strlit("so");
    reveal_strlit(".dylib");
    reveal_strlit(".dll");
    reveal_strlit(".so");
    assert("."@ + "dylib"@ =~= ".dylib"@);
    assert("."@ + "dll"@ =~= ".dll"@);
    assert("."@ + "so"@ =~= ".so"@);
}

/// A suffix that was drawn is one that the random source gave.
proof fn law_fresh_suffixes_are_drawn(suffix: Seq<char>)
    requires
        is_fresh_suffix(suffix),
    ensures
        exists|drawn: String| #[trigger]
            call_ensures(random_suffix, (), drawn) && drawn@ == suffix,
{
}

/// Two packages whose names differ only in hyphens and underscores share one built dylib and one
/// family of staged copies, in every workspace.
pub proof fn law_hyphens_do_not_tell_packages_apart(
    workspace_root: PathBuf,
    platform: Platform,
    a: Seq<char>,
    b: Seq<char>,
    suffix: Seq<char>,
)
    requires
        lib_name(a) == lib_name(b),
    ensures
        built_path(workspace_root, a, platform) == built_path(workspace_root, b, platform),
        staged_path(workspace_root, a, platform, suffix) == staged_path(
            workspace_root,
            b,
            platform,
            suffix,
        ),
{
}

/// No staged copy has the file name of the built dylib.
pub proof fn law_staged_name_is_not_the_built_name(
    platform: Platform,
    package: Seq<char>,
    suffix: Seq<char>,
)
    ensures
        staged_file_name(platform, package, suffix) != dylib_file_name(platform, package),
{
    reveal_strlit("-");
    assert(staged_file_name(platform, package, suffix).len() > dylib_file_name(
        platform,
        package,
    ).len());
}

/// Copies staged under different suffixes have different file names.
pub proof fn law_staged_names_are_unique(
    platform: Platform,
    package: Seq<char>,
    a: Seq<char>,
    b: Seq<char>,
)
    requires
        a != b,
    ensures
        staged_file_name(platform, package, a) != staged_file_name(platform, package, b),
{
    let head = naming(platform).0 + lib_name(package) + "-"@;
    let tail = "."@ + naming(platform).1;
    let x = staged_file_name(platform, package, a);
    let y = staged_file_name(platform, package, b);
    assert(x =~= head + a + tail);
    assert(y =~= head + b + tail);
    if x == y {
        assert(a.len() == b.len());
        assert(x.subrange(head.len() as int, (head.len() + a.len()) as int) =~= a);
        assert(y.subrange(head.len() as int, (head.len() + b.len()) as int) =~= b);
    }
}

/// A suffix that was drawn holds no separator, so that a copy goes right into the staging
/// directory: where the package name holds no separator, the copy's file name is one plain
/// component.
pub proof fn law_staged_name_is_a_single_component(
    platform: Platform,
    package: Seq<char>,
    suffix: Seq<char>,
)
    requires
        has_no_separator(package),
        is_uuid_v4(suffix),
    ensures
        has_no_separator(suffix),
        is_plain_component(staged_file_name(platform, package, suffix)),
{
    assert forall|i: int| 0 <= i < suffix.len() implies suffix[i] != '/' && suffix[i] != '\\'
        && suffix[i] != ':' by {}
    lemma_staged_name_is_plain(platform, package, suffix);
}

/// The path is one that [`built_dylib_path`] gave for the package.
pub open spec fn is_built_dylib(
    path: PathBuf,
    workspace_root: PathBuf,
    package: Seq<char>,
    platform: Platform,
) -> bool {
    exists|name: &str|
        name@ == package && #[trigger] call_ensures(
            built_dylib_path,
            (&workspace_root, name, platform),
            path,
        )
}

/// The path is one that [`staged_dylib_path`] gave for the package under the suffix.
pub open spec fn is_staged_copy(
    path: PathBuf,
    workspace_root: PathBuf,
    package: Seq<char>,
    platform: Platform,
    suffix: Seq<char>,
) -> bool {
    exists|name: &str, text: &str|
        name@ == package && text@ == suffix && #[trigger] call_ensures(
            staged_dylib_path,
            (&workspace_root, name, platform, text),
            path,
        )
}

/// Each copy gets a place of its own: the copies that are staged under two different suffixes are
/// at different paths, and neither is at that of the built dylib.
pub proof fn law_staged_paths_are_unique(
    workspace_root: PathBuf,
    package: Seq<char>,
    platform: Platform,
    a: Seq<char>,
    b: Seq<char>,
    staged_a: PathBuf,
    staged_b: PathBuf,
    built: PathBuf,
)
    requires
        has_no_separator(package),
        is_uuid_v4(a),
        is_uuid_v4(b),
        a != b,
        is_staged_copy(staged_a, workspace_root, package, platform, a),
        is_staged_copy(staged_b, workspace_root, package, platform, b),
        is_built_dylib(built, workspace_root, package, platform),
    ensures
        staged_a != staged_b,
        staged_a != built,
        staged_b != built,
{
    law_staged_name_is_a_single_component(platform, package, a);
    law_staged_name_is_a_single_component(platform, package, b);
    law_staged_names_are_unique(platform, package, a, b);
    law_staged_name_is_not_the_built_name(platform, package, a);
    law_staged_name_is_not_the_built_name(platform, package, b);
}

/// A sweep for a package recognises every copy that was staged for it: such a file is left in
/// place while it is young and is swept after that.
pub proof fn law_sweep_finds_staged_copies(
    workspace_root: PathBuf,
    package: Seq<char>,
    platform: Platform,
    suffix: Seq<char>,
    file: StagedFile,
)
    requires
        has_no_separator(package),
        is_uuid_v4(suffix),
        is_staged_copy(file.path, workspace_root, package, platform, suffix),
    ensures
        file.retired(package) == !is_young(age_secs(file.modified)),
        match file.modified {
            Modified::Ago(age) => file.retired(package) <==> whole_secs(age) >= 2,
            Modified::Future => !file.retired(package),
            Modified::Unknown => file.retired(package),
        },
{
    law_staged_name_is_a_single_component(platform, package, suffix);
    let name = staged_file_name(platform, package, suffix);
    let at = naming(platform).0.len() as int;
    assert(name.subrange(at, at + lib_name(package).len()) =~= lib_name(package));
    assert(occurs_at(name, lib_name(package), at));
}

/// Two packages have one built dylib exactly where they have one library name: their names differ
/// in hyphens and underscores at most.
pub proof fn law_library_names_tell_dylibs_apart(
    workspace_root: &PathBuf,
    platform: Platform,
    a: &str,
    b: &str,
    built_a: PathBuf,
    built_b: PathBuf,
)
    requires
        has_no_separator(a@),
        has_no_separator(b@),
        call_ensures(crate::dylib_path, (workspace_root, a, platform), built_a),
        call_ensures(crate::dylib_path, (workspace_root, b, platform), built_b),
    ensures
        built_a == built_b <==> lib_name(a@) == lib_name(b@),
        built_a == built_b <==> a@.len() == b@.len() && forall|i: int|
            #![trigger a@[i]]
            #![trigger b@[i]]
            0 <= i < a@.len() ==> a@[i] == b@[i] || ((a@[i] == '-' || a@[i] == '_') && (b@[i] == '-'
                || b@[i] == '_')),
{
    law_lib_name_differs_at_hyphens_alone(a@);
    law_lib_name_differs_at_hyphens_alone(b@);
    if lib_name(a@) == lib_name(b@) {
        assert forall|i: int| 0 <= i < a@.len() implies #[trigger] a@[i] == b@[i] || ((a@[i] == '-'
            || a@[i] == '_') && (b@[i] == '-' || b@[i] == '_')) by {
            assert(lib_name(a@)[i] == lib_name(b@)[i]);
        }
    }
    if a@.len() == b@.len() && forall|i: int|
        #![trigger a@[i]]
        #![trigger b@[i]]
        0 <= i < a@.len() ==> a@[i] == b@[i] || ((a@[i] == '-' || a@[i] == '_') && (b@[i] == '-'
            || b@[i] == '_')) {
        assert forall|i: int| 0 <= i < a@.len() implies #[trigger] lib_name(a@)[i] == lib_name(
            b@,
        )[i] by {
            assert(a@[i] == b@[i] || ((a@[i] == '-' || a@[i] == '_') && (b@[i] == '-' || b@[i]
                == '_')));
        }
        assert(lib_name(a@) =~= lib_name(b@));
    }
    let (prefix, ext) = naming(platform);
    let x = dylib_file_name(platform, a@);
    let y = dylib_file_name(platform, b@);
    if x == y {
        assert(lib_name(a@).len() == lib_name(b@).len());
        assert(x.subrange(prefix.len() as int, (prefix.len() + lib_name(a@).len()) as int)
            =~= lib_name(a@));
        assert(y.subrange(prefix.len() as int, (prefix.len() + lib_name(b@).len()) as int)
            =~= lib_name(b@));
    }
}

/// Cargo's output and the staged copies are in different directories: the built dylib never lies
/// in the staging directory, every copy does, and a sweep of files that lie there does not hit
/// the built dylib.
pub proof fn law_sweep_spares_the_built_dylib(
    workspace_root: PathBuf,
    package: Seq<char>,
    platform: Platform,
    suffix: Seq<char>,
    built: PathBuf,
    staged: PathBuf,
    files: Seq<StagedFile>,
)
    requires
        has_no_separator(package),
        is_uuid_v4(suffix),
        is_built_dylib(built, workspace_root, package, platform),
        is_staged_copy(staged, workspace_root, package, platform, suffix),
        forall|i: int|
            0 <= i < files.len() ==> lies_in((#[trigger] files[i]).path, "axum-hotreload"@),
    ensures
        lies_in(built, "debug"@),
        !lies_in(built, "axum-hotreload"@),
        lies_in(staged, "axum-hotreload"@),
        !swept(package, files).contains(built),
{
    law_staged_name_is_a_single_component(platform, package, suffix);
    lemma_one_directory(built);
    law_sweep_removes_exactly_the_retired(package, files);
    if swept(package, files).contains(built) {
        let file = choose|file: StagedFile|
            #![trigger files.contains(file)]
            files.contains(file) && file.retired(package) && file.path == built;
        let i = choose|i: int| 0 <= i < files.len() && files[i] == file;
        assert(lies_in(files[i].path, "axum-hotreload"@));
    }
}

/// No path lies in both directories, since their names end differently.
proof fn lemma_one_directory(path: PathBuf)
    requires
        lies_in(path, "debug"@),
    ensures
        !lies_in(path, "axum-hotreload"@),
{
    reveal_strlit("debug");
    reveal_strlit("axum-hotreload");
    reveal_strlit("/");
    reveal_strlit("\\");
    let name = path_file_name(path)->0;
    let text = path_display(path);
    let at = text.len() - name.len() - 2;
    assert forall|dir: Seq<char>, sep: Seq<char>|
        sep.len() == 1 && dir.len() > 0 && #[trigger] (dir + sep + name).is_suffix_of(
            text,
        ) implies at >= 0 && text[at] == dir.last() by {
        let tail = dir + sep + name;
        assert(tail[dir.len() - 1] == dir.last());
        let end = text.subrange(text.len() - tail.len(), text.len() as int);
        assert(end[dir.len() - 1] == text[at]);
    }
    if lies_in(path, "axum-hotreload"@) {
        assert(text[at] == 'g');
        assert(text[at] == 'd');
    }
}

/// A file is swept for a package exactly where its name holds the library name and it was not
/// written within the last two whole seconds; without a name it never is, and without an age it
/// is.
pub proof fn law_old_files_of_the_package_are_retired(
    package: &str,
    lib: Seq<char>,
    name: Option<String>,
    age: Option<u64>,
    res: bool,
)
    requires
        lib.len() == package@.len(),
        forall|i: int|
            0 <= i < package@.len() ==> #[trigger] lib[i] == if package@[i] == '-' {
                '_'
            } else {
                package@[i]
            },
        call_ensures(is_retired_file, (package, &name, age), res),
    ensures
        name is None ==> !res,
        name matches Some(name) ==> ({
            let named = exists|head: Seq<char>, tail: Seq<char>|
                name@ == #[trigger] (head + lib + tail);
            match age {
                Some(secs) => res <==> named && secs >= 2,
                None => res <==> named,
            }
        }),
{
    lemma_lib_name_is(package@, lib);
    if let Some(name) = name {
        lemma_contains_text(name@, lib);
    }
}

/// A file that is swept at some age is swept at every greater one.
pub proof fn law_retired_files_stay_retired(
    package: &str,
    name: Option<String>,
    younger: u64,
    older: u64,
    res_younger: bool,
    res_older: bool,
)
    requires
        younger <= older,
        call_ensures(is_retired_file, (package, &name, Some(younger)), res_younger),
        call_ensures(is_retired_file, (package, &name, Some(older)), res_older),
    ensures
        res_younger ==> res_older,
        res_older && younger >= 2 ==> res_younger,
{
}

/// What a sweep goes by is the name at the end of a file's path and the whole seconds since it was
/// written: one from ahead of the clock is kept, and one without a time is swept if it is named
/// for the package.
pub proof fn law_files_are_retired_by_name_and_age(
    file: StagedFile,
    package: &str,
    lib: Seq<char>,
    res: bool,
)
    requires
        lib.len() == package@.len(),
        forall|i: int|
            0 <= i < package@.len() ==> #[trigger] lib[i] == if package@[i] == '-' {
                '_'
            } else {
                package@[i]
            },
        call_ensures(StagedFile::is_retired, (&file, package), res),
    ensures
        res == file.retired(package@),
        path_file_name(file.path) is None ==> !res,
        path_file_name(file.path) matches Some(name) ==> ({
            let named = exists|head: Seq<char>, tail: Seq<char>|
                name == #[trigger] (head + lib + tail);
            match file.modified {
                Modified::Ago(age) => res <==> named && whole_secs(age) >= 2,
                Modified::Future => !res,
                Modified::Unknown => res <==> named,
            }
        }),
{
    lemma_lib_name_is(package@, lib);
    if let Some(name) = path_file_name(file.path) {
        lemma_contains_text(name, lib);
    }
}

/// A sweep goes file by file and keeps their order: it removes nothing from an empty listing, the
/// one file of a listing exactly where that is retired, and from two listings in a row what it
/// removes from the first and then what it removes from the second.
pub proof fn law_sweep_goes_file_by_file(
    package: &str,
    a: Vec<StagedFile>,
    b: Vec<StagedFile>,
    both: Vec<StagedFile>,
    file: StagedFile,
    single: Vec<StagedFile>,
    retired: bool,
    from_a: Vec<PathBuf>,
    from_b: Vec<PathBuf>,
    from_both: Vec<PathBuf>,
    from_single: Vec<PathBuf>,
)
    requires
        both@ == a@ + b@,
        single@ == seq![file],
        call_ensures(StagedFile::is_retired, (&file, package), retired),
        call_ensures(sweep_staging, (package, &a), from_a),
        call_ensures(sweep_staging, (package, &b), from_b),
        call_ensures(sweep_staging, (package, &both), from_both),
        call_ensures(sweep_staging, (package, &single), from_single),
    ensures
        a@.len() == 0 ==> from_a@.len() == 0,
        from_both@ == from_a@ + from_b@,
        retired ==> from_single@ == seq![file.path],
        !retired ==> from_single@.len() == 0,
{
    reveal(Seq::filter);
    lemma_swept_sum(package@, a@, b@);
    let none = Seq::<StagedFile>::empty();
    assert(swept(package@, none) =~= Seq::empty());
    lemma_swept_push(package@, none, file);
    assert(none.push(file) =~= seq![file]);
    assert(swept(package@, none).push(file.path) =~= seq![file.path]);
}

proof fn lemma_swept_sum(package: Seq<char>, a: Seq<StagedFile>, b: Seq<StagedFile>)
    ensures
        swept(package, a + b) == swept(package, a) + swept(package, b),
    decreases b.len(),
{
    reveal(Seq::filter);
    if b.len() == 0 {
        assert(a + b =~= a);
        assert(swept(package, b) =~= Seq::empty());
        assert(swept(package, a) + swept(package, b) =~= swept(package, a));
    } else {
        let rest = b.drop_last();
        lemma_swept_sum(package, a, rest);
        lemma_swept_push(package, a + rest, b.last());
        lemma_swept_push(package, rest, b.last());
        assert((a + rest).push(b.last()) =~= a + b);
        assert(rest.push(b.last()) =~= b);
        assert(swept(package, a + b) =~= swept(package, a) + swept(package, b));
    }
}

/// A sweep removes exactly the retired files: each path that it removes is that of a listed file
/// that is named for the package and no longer young, and each such file is removed.
pub proof fn law_sweep_removes_exactly_the_retired(package: Seq<char>, files: Seq<StagedFile>)
    ensures
        forall|path: PathBuf|
            swept(package, files).contains(path) <==> exists|file: StagedFile|
                #![trigger files.contains(file)]
                files.contains(file) && file.retired(package) && file.path == path,
{
    let retired = |f: StagedFile| f.retired(package);
    let chosen = files.filter(retired);
    assert forall|file: StagedFile| chosen.contains(file) <==> files.contains(file)
        && file.retired(package) by {
        lemma_filter_members(files, retired, file);
    }
    assert forall|path: PathBuf|
        swept(package, files).contains(path) <==> exists|file: StagedFile|
            #![trigger files.contains(file)]
            files.contains(file) && file.retired(package) && file.path == path by {
        if swept(package, files).contains(path) {
            let i = choose|i: int| 0 <= i < chosen.len() && swept(package, files)[i] == path;
            assert(chosen.contains(chosen[i]));
        }
        if exists|file: StagedFile|
            #![trigger files.contains(file)]
            files.contains(file) && file.retired(package) && file.path == path {
            let file = choose|file: StagedFile|
                #![trigger files.contains(file)]
                files.contains(file) && file.retired(package) && file.path == path;
            assert(chosen.contains(file));
            let i = choose|i: int| 0 <= i < chosen.len() && chosen[i] == file;
            assert(swept(package, files)[i] == path);
        }
    }
}

/// Sweeping again what a sweep left in place removes nothing more.
pub proof fn law_second_sweep_removes_nothing(package: Seq<char>, files: Seq<StagedFile>)
    ensures
        swept(package, kept(package, files)) == Seq::<PathBuf>::empty(),
{
    let rest = kept(package, files);
    let retired = |f: StagedFile| f.retired(package);
    assert forall|file: StagedFile| rest.contains(file) implies !file.retired(package) by {
        lemma_filter_members(files, |f: StagedFile| !f.retired(package), file);
    }
    let again = rest.filter(retired);
    if again.len() > 0 {
        assert(again.contains(again[0]));
        lemma_filter_members(rest, retired, again[0]);
    }
    assert(swept(package, rest) =~= Seq::empty());
}

proof fn lemma_filter_members(
    files: Seq<StagedFile>,
    pred: spec_fn(StagedFile) -> bool,
    file: StagedFile,
)
    ensures
        files.filter(pred).contains(file) <==> files.contains(file) && pred(file),
{
    if files.filter(pred).contains(file) {
        files.lemma_filter_contains_rev(pred, file);
        let i = choose|i: int|
            0 <= i < files.filter(pred).len() && files.filter(pred)[i] == file;
        files.lemma_filter_pred(pred, i);
    }
    if files.contains(file) && pred(file) {
        let i = choose|i: int| 0 <= i < files.len() && files[i] == file;
        files.lemma_filter_contains(pred, i);
    }
}

} // verus!
