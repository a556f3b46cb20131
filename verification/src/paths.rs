//! Expansion of file patterns into the files to send.

use crate::cli::Cli;
use glob::{GlobError, PatternError};
use std::path::PathBuf;
use vstd::prelude::*;

verus! {

/// `std::path::PathBuf`, carried through as it is: nothing here looks inside
/// a path.
#[verifier::external_type_specification]
#[verifier::external_body]
pub struct ExPathBuf(PathBuf);

/// `glob::PatternError`: why a pattern is not valid glob syntax.
#[verifier::external_type_specification]
#[verifier::external_body]
pub struct ExPatternError(PatternError);

/// `glob::GlobError`: why a path could not be read during an expansion.
#[verifier::external_type_specification]
#[verifier::external_body]
pub struct ExGlobError(GlobError);

/// The four ways in which a file can be sent.
#[derive(Debug, Clone, Copy, PartialEq, Eq, Structural)]
pub enum Category {
    Document,
    Photo,
    Video,
    Audio,
}

impl Category {
    /// The name of the request field that carries the file.
    pub open spec fn spec_field_name(self) -> Seq<char> {
        match self {
            Category::Document => "document"@,
            Category::Photo => "photo"@,
            Category::Video => "video"@,
            Category::Audio => "audio"@,
        }
    }

    /// The API method that sends a file of this category.
    pub open spec fn spec_method(self) -> Seq<char> {
        match self {
            Category::Document => "sendDocument"@,
            Category::Photo => "sendPhoto"@,
            Category::Video => "sendVideo"@,
            Category::Audio => "sendAudio"@,
        }
    }

    /// The name of the request field that carries the file.
    pub fn field_name(&self) -> (r: &'static str)
        ensures
            r@ == self.spec_field_name(),
    {
        match self {
            Category::Document => "document",
            Category::Photo => "photo",
            Category::Video => "video",
            Category::Audio => "audio",
        }
    }

    /// The API method that sends a file of this category.
    pub fn method(&self) -> (r: &'static str)
        ensures
            r@ == self.spec_method(),
    {
        match self {
            Category::Document => "sendDocument",
            Category::Photo => "sendPhoto",
            Category::Video => "sendVideo",
            Category::Audio => "sendAudio",
        }
    }
}

/// A file that a pattern matched, with the way to send it.
#[derive(Debug, PartialEq, Eq)]
pub struct ResolvedFile {
    pub path: PathBuf,
    pub category: Category,
}

/// Something that went wrong during an expansion and does not stop it.
#[derive(Debug)]
pub enum Warning {
    /// The pattern at `index` of its category's list is not valid.
    InvalidPattern { category: Category, index: usize, reason: PatternError },
    /// A path could not be read while a pattern was expanded.
    UnreadablePath { category: Category, error: GlobError },
}

/// The files found and the warnings met, each in the order of discovery.
#[derive(Debug)]
pub struct Resolution {
    pub files: Vec<ResolvedFile>,
    pub warnings: Vec<Warning>,
}

/// The files among the entries of one expansion: the entries that are paths,
/// in their order.
pub open spec fn matched(category: Category, entries: Seq<Result<PathBuf, GlobError>>) -> Seq<
    ResolvedFile,
>
    decreases entries.len(),
{
    if entries.len() == 0 {
        Seq::empty()
    } else {
        let rest = matched(category, entries.drop_last());
        match entries.last() {
            Ok(path) => rest.push(ResolvedFile { path, category }),
            Err(_) => rest,
        }
    }
}

/// The warnings among the entries of one expansion: the entries that are
/// errors, in their order.
pub open spec fn unreadable(category: Category, entries: Seq<Result<PathBuf, GlobError>>) -> Seq<
    Warning,
>
    decreases entries.len(),
{
    if entries.len() == 0 {
        Seq::empty()
    } else {
        let rest = unreadable(category, entries.drop_last());
        match entries.last() {
            Ok(_) => rest,
            Err(error) => rest.push(Warning::UnreadablePath { category, error }),
        }
    }
}

/// The files that the expansion of one pattern gives: none where the pattern
/// is not valid.
pub open spec fn files_of(
    category: Category,
    expansion: Result<Vec<Result<PathBuf, GlobError>>, PatternError>,
) -> Seq<ResolvedFile> {
    match expansion {
        Ok(entries) => matched(category, entries@),
        Err(_) => Seq::empty(),
    }
}

/// The warnings that the expansion of one pattern gives: one where the
/// pattern is not valid, else one for each path that could not be read.
pub open spec fn warnings_of(
    category: Category,
    index: usize,
    expansion: Result<Vec<Result<PathBuf, GlobError>>, PatternError>,
) -> Seq<Warning> {
    match expansion {
        Ok(entries) => unreadable(category, entries@),
        Err(reason) => seq![Warning::InvalidPattern { category, index, reason }],
    }
}

/// The files of the expansions of a category's patterns, pattern by pattern.
pub open spec fn files_of_all(
    category: Category,
    expansions: Seq<Result<Vec<Result<PathBuf, GlobError>>, PatternError>>,
) -> Seq<ResolvedFile>
    decreases expansions.len(),
{
    if expansions.len() == 0 {
        Seq::empty()
    } else {
        files_of_all(category, expansions.drop_last()) + files_of(category, expansions.last())
    }
}

/// The warnings of the expansions of a category's patterns, pattern by
/// pattern.
pub open spec fn warnings_of_all(
    category: Category,
    expansions: Seq<Result<Vec<Result<PathBuf, GlobError>>, PatternError>>,
) -> Seq<Warning>
    decreases expansions.len(),
{
    if expansions.len() == 0 {
        Seq::empty()
    } else {
        warnings_of_all(category, expansions.drop_last()) + warnings_of(
            category,
            (expansions.len() - 1) as usize,
            expansions.last(),
        )
    }
}

/// Whether the pattern, read as text, is valid glob syntax: whether
/// `glob::glob` accepts it.
pub uninterp spec fn valid_pattern(pattern: PathBuf) -> bool;

/// Calls `glob::glob` on the pattern, read as text, and walks the iterator it
/// returns to its end. Trusted: the call fails exactly on a pattern that is
/// not valid, which depends on the pattern alone. Of the entries nothing is
/// promised: they depend on the file system.
#[verifier::external_body]
fn expand(pattern: &PathBuf) -> (r: Result<Vec<Result<PathBuf, GlobError>>, PatternError>)
    ensures
        r is Ok <==> valid_pattern(*pattern),
{
    Ok(glob::glob(&pattern.to_string_lossy())?.collect())
}

/// Whether the expansions are such as the patterns can have, one for each
/// pattern in order: an expansion fails exactly where its pattern is not
/// valid.
pub open spec fn expansions_of(
    patterns: Seq<PathBuf>,
    expansions: Seq<Result<Vec<Result<PathBuf, GlobError>>, PatternError>>,
) -> bool {
    &&& expansions.len() == patterns.len()
    &&& forall|i: int|
        0 <= i < patterns.len() ==> ((#[trigger] expansions[i]) is Ok <==> valid_pattern(
            patterns[i],
        ))
}

/// Sorts the outcome of one pattern's expansion into files and warnings.
/// `index` is the pattern's place in its category's list.
pub fn collect_matches(
    category: Category,
    index: usize,
    expansion: Result<Vec<Result<PathBuf, GlobError>>, PatternError>,
) -> (r: Resolution)
    ensures
        r.files@ == files_of(category, expansion),
        r.warnings@ == warnings_of(category, index, expansion),
{
    let mut files: Vec<ResolvedFile> = Vec::new();
    let mut warnings: Vec<Warning> = Vec::new();
    match expansion {
        Err(reason) => {
            warnings.push(Warning::InvalidPattern { category, index, reason });
        },
        Ok(entries) => {
            let ghost all = entries@;
            for entry in it: entries
                invariant
                    it.seq() == all,
                    files@ == matched(category, all.take(it.index() as int)),
                    warnings@ == unreadable(category, all.take(it.index() as int)),
            {
                proof {
                    let i = it.index() as int;
                    assert(all.take(i + 1).drop_last() =~= all.take(i));
                    assert(all.take(i + 1).last() == all[i]);
                }
                match entry {
                    Ok(path) => {
                        files.push(ResolvedFile { path, category });
                    },
                    Err(error) => {
                        warnings.push(Warning::UnreadablePath { category, error });
                    },
                }
            }
            assert(all.take(all.len() as int) =~= all);
        },
    }
    Resolution { files, warnings }
}

/// Whether the resolution is what the given expansions of a category's
/// patterns amount to.
pub open spec fn gathers(
    category: Category,
    expansions: Seq<Result<Vec<Result<PathBuf, GlobError>>, PatternError>>,
    r: Resolution,
) -> bool {
    &&& r.files@ == files_of_all(category, expansions)
    &&& r.warnings@ == warnings_of_all(category, expansions)
}

/// Expands the patterns of one category, in their order. Whatever the file
/// system holds, the result is what some expansions amount to, one for each
/// pattern, of which those of the patterns that are not valid have failed.
pub fn resolve_category(category: Category, patterns: &Vec<PathBuf>) -> (r: Resolution)
    ensures
        exists|expansions: Seq<Result<Vec<Result<PathBuf, GlobError>>, PatternError>>|
            expansions_of(patterns@, expansions) && #[trigger] gathers(category, expansions, r),
{
    let mut files: Vec<ResolvedFile> = Vec::new();
    let mut warnings: Vec<Warning> = Vec::new();
    let ghost mut seen: Seq<Result<Vec<Result<PathBuf, GlobError>>, PatternError>> = Seq::empty();
    let mut i: usize = 0;
    while i < patterns.len()
        invariant
            i <= patterns.len(),
            expansions_of(patterns@.take(i as int), seen),
            files@ == files_of_all(category, seen),
            warnings@ == warnings_of_all(category, seen),
        decreases patterns.len() - i,
    {
        let expansion = expand(&patterns[i]);
        let ghost before = seen;
        proof {
            seen = seen.push(expansion);
            assert(seen.drop_last() =~= before);
        }
        let mut found = collect_matches(category, i, expansion);
        files.append(&mut found.files);
        warnings.append(&mut found.warnings);
        i += 1;
    }
    let r = Resolution { files, warnings };
    assert(patterns@.take(patterns@.len() as int) =~= patterns@);
    assert(gathers(category, seen, r));
    r
}

/// Whether the resolution is what the given expansions of the four lists of
/// patterns amount to: documents first, then photos, videos and audio, each
/// list in its order.
pub open spec fn resolves(
    file: Seq<Result<Vec<Result<PathBuf, GlobError>>, PatternError>>,
    photo: Seq<Result<Vec<Result<PathBuf, GlobError>>, PatternError>>,
    video: Seq<Result<Vec<Result<PathBuf, GlobError>>, PatternError>>,
    audio: Seq<Result<Vec<Result<PathBuf, GlobError>>, PatternError>>,
    r: Resolution,
) -> bool {
    &&& r.files@ == files_of_all(Category::Document, file) + files_of_all(Category::Photo, photo)
        + files_of_all(Category::Video, video) + files_of_all(Category::Audio, audio)
    &&& r.warnings@ == warnings_of_all(Category::Document, file) + warnings_of_all(
        Category::Photo,
        photo,
    ) + warnings_of_all(Category::Video, video) + warnings_of_all(Category::Audio, audio)
}

/// Expands all patterns of the command line. Whatever the file system holds,
/// the result is what some expansions amount to, one for each pattern, of
/// which those of the patterns that are not valid have failed, in the order
/// of the categories and, within a category, of its patterns.
pub fn resolve_files(cli: &Cli) -> (r: Resolution)
    ensures
        exists|
            file: Seq<Result<Vec<Result<PathBuf, GlobError>>, PatternError>>,
            photo: Seq<Result<Vec<Result<PathBuf, GlobError>>, PatternError>>,
            video: Seq<Result<Vec<Result<PathBuf, GlobError>>, PatternError>>,
            audio: Seq<Result<Vec<Result<PathBuf, GlobError>>, PatternError>>,
        |
            expansions_of(cli@.file, file) && expansions_of(cli@.photo, photo) && expansions_of(
                cli@.video,
                video,
            ) && expansions_of(cli@.audio, audio) && #[trigger] resolves(
                file,
                photo,
                video,
                audio,
                r,
            ),
{
    let mut documents = resolve_category(Category::Document, &cli.file);
    let mut photos = resolve_category(Category::Photo, &cli.photo);
    let mut videos = resolve_category(Category::Video, &cli.video);
    let mut audios = resolve_category(Category::Audio, &cli.audio);
    let ghost file = choose|e: Seq<Result<Vec<Result<PathBuf, GlobError>>, PatternError>>|
        expansions_of(cli@.file, e) && #[trigger] gathers(Category::Document, e, documents);
    let ghost photo = choose|e: Seq<Result<Vec<Result<PathBuf, GlobError>>, PatternError>>|
        expansions_of(cli@.photo, e) && #[trigger] gathers(Category::Photo, e, photos);
    let ghost video = choose|e: Seq<Result<Vec<Result<PathBuf, GlobError>>, PatternError>>|
        expansions_of(cli@.video, e) && #[trigger] gathers(Category::Video, e, videos);
    let ghost audio = choose|e: Seq<Result<Vec<Result<PathBuf, GlobError>>, PatternError>>|
        expansions_of(cli@.audio, e) && #[trigger] gathers(Category::Audio, e, audios);
    let mut files: Vec<ResolvedFile> = Vec::new();
    let mut warnings: Vec<Warning> = Vec::new();
    files.append(&mut documents.files);
    files.append(&mut photos.files);
    files.append(&mut videos.files);
    files.append(&mut audios.files);
    warnings.append(&mut documents.warnings);
    warnings.append(&mut photos.warnings);
    warnings.append(&mut videos.warnings);
    warnings.append(&mut audios.warnings);
    let r = Resolution { files, warnings };
    assert(r.files@ =~= files_of_all(Category::Document, file) + files_of_all(
        Category::Photo,
        photo,
    ) + files_of_all(Category::Video, video) + files_of_all(Category::Audio, audio));
    assert(r.warnings@ =~= warnings_of_all(Category::Document, file) + warnings_of_all(
        Category::Photo,
        photo,
    ) + warnings_of_all(Category::Video, video) + warnings_of_all(Category::Audio, audio));
    assert(resolves(file, photo, video, audio, r));
    r
}

/// A valid pattern that matches nothing gives no file and no warning.
pub proof fn lemma_no_match(category: Category, index: usize, entries: Vec<Result<PathBuf, GlobError>>)
    requires
        entries@.len() == 0,
    ensures
        files_of(category, Ok(entries)).len() == 0,
        warnings_of(category, index, Ok(entries)).len() == 0,
{
}

/// A pattern that is not valid gives no file and one warning, which names the
/// pattern's place and holds the error.
pub proof fn lemma_invalid_pattern(category: Category, index: usize, reason: PatternError)
    ensures
        files_of(category, Err(reason)).len() == 0,
        warnings_of(category, index, Err(reason)) == seq![
            Warning::InvalidPattern { category, index, reason },
        ],
{
}

/// Where every entry of an expansion is a path, each entry gives one file,
/// in the order of the entries and of the category asked for, and there is no
/// warning.
pub proof fn lemma_all_matched(category: Category, entries: Seq<Result<PathBuf, GlobError>>)
    requires
        forall|i: int| 0 <= i < entries.len() ==> (#[trigger] entries[i]) is Ok,
    ensures
        matched(category, entries).len() == entries.len(),
        forall|i: int|
            0 <= i < entries.len() ==> (#[trigger] matched(category, entries)[i])
                == (ResolvedFile { path: entries[i]->Ok_0, category }),
        unreadable(category, entries).len() == 0,
    decreases entries.len(),
{
    if entries.len() > 0 {
        let head = entries.drop_last();
        assert forall|i: int| 0 <= i < head.len() implies (#[trigger] head[i]) is Ok by {
            assert(entries[i] is Ok);
        }
        lemma_all_matched(category, head);
        assert(entries.last() is Ok);
        assert forall|i: int| 0 <= i < entries.len() implies (#[trigger] matched(
            category,
            entries,
        )[i]) == (ResolvedFile { path: entries[i]->Ok_0, category }) by {
            if i < head.len() {
                assert(matched(category, head)[i] == (ResolvedFile {
                    path: head[i]->Ok_0,
                    category,
                }));
            }
        }
    }
}

/// The files of an expansion are never more than its entries, and files and
/// warnings together are as many as the entries.
pub proof fn lemma_entries_split(category: Category, entries: Seq<Result<PathBuf, GlobError>>)
    ensures
        matched(category, entries).len() + unreadable(category, entries).len() == entries.len(),
    decreases entries.len(),
{
    if entries.len() > 0 {
        lemma_entries_split(category, entries.drop_last());
    }
}

/// Every pattern of a category that is not valid gives a warning, which
/// names the pattern's place in the list and holds the error of its
/// expansion.
pub proof fn lemma_invalid_pattern_warns(
    category: Category,
    patterns: Seq<PathBuf>,
    expansions: Seq<Result<Vec<Result<PathBuf, GlobError>>, PatternError>>,
    i: int,
)
    requires
        expansions_of(patterns, expansions),
        0 <= i < patterns.len() <= usize::MAX,
    ensures
        !valid_pattern(patterns[i]) ==> expansions[i] is Err && warnings_of_all(
            category,
            expansions,
        ).contains(
            Warning::InvalidPattern { category, index: i as usize, reason: expansions[i]->Err_0 },
        ),
    decreases expansions.len(),
{
    if !valid_pattern(patterns[i]) {
        let head = expansions.drop_last();
        let last = warnings_of(category, (expansions.len() - 1) as usize, expansions.last());
        let all = warnings_of_all(category, expansions);
        assert(all == warnings_of_all(category, head) + last);
        if i == expansions.len() - 1 {
            let w = Warning::InvalidPattern {
                category,
                index: i as usize,
                reason: expansions[i]->Err_0,
            };
            assert(last[0] == w);
            assert(all[warnings_of_all(category, head).len() as int] == w);
        } else {
            let shorter = patterns.drop_last();
            assert forall|k: int| 0 <= k < shorter.len() implies ((#[trigger] head[k]) is Ok
                <==> valid_pattern(shorter[k])) by {
                assert(head[k] == expansions[k]);
            }
            lemma_invalid_pattern_warns(category, shorter, head, i);
            let w = Warning::InvalidPattern { category, index: i as usize, reason: head[i]->Err_0 };
            let k = choose|k: int|
                0 <= k < warnings_of_all(category, head).len() && warnings_of_all(category, head)[k]
                    == w;
            assert(all[k] == w);
        }
    }
}

/// Patterns that are all valid give no warning about a pattern: where, in
/// addition, nothing is unreadable, they give no warning at all.
pub proof fn lemma_valid_patterns_without_errors(
    category: Category,
    patterns: Seq<PathBuf>,
    expansions: Seq<Result<Vec<Result<PathBuf, GlobError>>, PatternError>>,
)
    requires
        expansions_of(patterns, expansions),
    ensures
        (forall|i: int|
            0 <= i < patterns.len() ==> valid_pattern(#[trigger] patterns[i]) && unreadable(
                category,
                expansions[i]->Ok_0@,
            ).len() == 0) ==> warnings_of_all(category, expansions).len() == 0,
    decreases expansions.len(),
{
    if expansions.len() > 0 && (forall|i: int|
        0 <= i < patterns.len() ==> valid_pattern(#[trigger] patterns[i]) && unreadable(
            category,
            expansions[i]->Ok_0@,
        ).len() == 0) {
        let head = expansions.drop_last();
        let shorter = patterns.drop_last();
        assert forall|k: int| 0 <= k < shorter.len() implies ((#[trigger] head[k]) is Ok
            <==> valid_pattern(shorter[k])) by {
            assert(head[k] == expansions[k]);
        }
        assert forall|k: int| 0 <= k < shorter.len() implies valid_pattern(#[trigger] shorter[k])
            && unreadable(category, head[k]->Ok_0@).len() == 0 by {
            assert(shorter[k] == patterns[k]);
            assert(head[k] == expansions[k]);
        }
        lemma_valid_patterns_without_errors(category, shorter, head);
        let last = patterns.len() - 1;
        assert(valid_pattern(patterns[last]));
        assert(expansions[last] is Ok);
    }
}

} // verus!
