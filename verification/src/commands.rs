//! The pure layer of the command handlers: what each command prints on
//! success, and how a registry outcome maps to output or failure. A command
//! emits no partial output: `repo info` yields text only after both the
//! record and the tag list are in hand.

use vstd::prelude::*;

use crate::oidc::UserRecord;

verus! {

/// A registry operation failed; wraps the external client's own failure as
/// its human-readable message.
#[derive(Debug, Clone)]
pub struct RegistryOperationError {
    pub message: String,
}

/// The label a repository's visibility prints as.
pub fn visibility_label(public: bool) -> (r: &'static str)
    ensures
        public ==> r@ == "public"@,
        !public ==> r@ == "private"@,
{
    if public {
        "public"
    } else {
        "private"
    }
}

/// What `user info` prints for a record.
pub open spec fn user_info_text(subject: Seq<char>) -> Seq<char> {
    "Subject: "@ + subject + "\n"@
}

/// The tag list lines of `repo info`: one `\t<tag>\n` line per tag, in
/// order.
pub open spec fn tag_lines(tags: Seq<Seq<char>>) -> Seq<char>
    decreases tags.len(),
{
    if tags.len() == 0 {
        Seq::empty()
    } else {
        seq!['\t'] + tags[0] + seq!['\n'] + tag_lines(tags.drop_first())
    }
}

/// What `repo info` prints for a record and its tags.
pub open spec fn repo_info_text(public: bool, tags: Seq<Seq<char>>) -> Seq<char> {
    "Visibility: "@ + (if public {
        "public"@
    } else {
        "private"@
    }) + "\n"@ + "Tags:"@ + "\n"@ + tag_lines(tags)
}

/// What `package info` prints when the tag exists.
pub open spec fn package_info_text() -> Seq<char> {
    "Package exists\n"@
}

/// The views of a list of strings.
pub open spec fn seq_views(tags: Seq<String>) -> Seq<Seq<char>> {
    tags.map_values(|t: String| t@)
}

/// Format the `user info` output for a retrieved record.
pub fn format_user_info(record: &UserRecord) -> (r: String)
    ensures
        r@ == user_info_text(record.subject@),
{
    proof {
        reveal_strlit("\n");
    }
    let mut out = subject_prefix().to_owned();
    out.append(record.subject.as_str());
    out.append("\n");
    assert(out@ =~= user_info_text(record.subject@)) by {
        assert("\n"@ =~= seq!['\n']);
    }
    out
}

/// The label `user info` prints before the subject.
fn subject_prefix() -> (r: &'static str)
    ensures
        r@ == "Subject: "@,
{
    "Subject: "
}

/// Format the `repo info` output for a retrieved record and tag list.
pub fn format_repo_info(public: bool, tags: &Vec<String>) -> (r: String)
    ensures
        r@ == repo_info_text(public, seq_views(tags@)),
{
    proof {
        reveal_strlit("\t");
        reveal_strlit("\n");
        reveal_strlit("Tags:");
    }
    let mut out = visibility_prefix().to_owned();
    out.append(visibility_label(public));
    out.append("\n");
    out.append("Tags:");
    out.append("\n");
    let ghost head = out@;
    proof {
        assert(seq_views(tags@).subrange(0, 0) =~= Seq::<Seq<char>>::empty());
        assert(head + tag_lines(seq_views(tags@).subrange(0, 0)) =~= head);
    }
    let mut i: usize = 0;
    while i < tags.len()
        invariant
            i <= tags.len(),
            out@ == head + tag_lines(seq_views(tags@).subrange(0, i as int)),
        decreases tags.len() - i,
    {
        proof {
            reveal_strlit("\t");
            reveal_strlit("\n");
        }
        out.append("\t");
        out.append(tags[i].as_str());
        out.append("\n");
        proof {
            lemma_tag_lines_snoc(seq_views(tags@).subrange(0, i + 1));
            assert(seq_views(tags@).subrange(0, i + 1).drop_last() =~= seq_views(tags@).subrange(
                0,
                i as int,
            ));
            assert(seq_views(tags@).subrange(0, i + 1).last() == tags@[i as int]@);
            assert(out@ =~= head + tag_lines(seq_views(tags@).subrange(0, i + 1)));
        }
        i = i + 1;
    }
    proof {
        assert(seq_views(tags@).subrange(0, tags@.len() as int) =~= seq_views(tags@));
        assert(head + tag_lines(seq_views(tags@)) =~= repo_info_text(public, seq_views(tags@)))
            by {
            assert("\n"@ =~= seq!['\n']);
        }
    }
    out
}

/// The label `repo info` prints before the visibility.
fn visibility_prefix() -> (r: &'static str)
    ensures
        r@ == "Visibility: "@,
{
    "Visibility: "
}

/// Appending one tag appends one line.
proof fn lemma_tag_lines_snoc(tags: Seq<Seq<char>>)
    requires
        tags.len() > 0,
    ensures
        tag_lines(tags) == tag_lines(tags.drop_last()) + seq!['\t'] + tags.last() + seq!['\n'],
    decreases tags.len(),
{
    if tags.len() == 1 {
        assert(tags.drop_first() =~= Seq::<Seq<char>>::empty());
        assert(tags.drop_last() =~= Seq::<Seq<char>>::empty());
        assert(tag_lines(tags) =~= tag_lines(tags.drop_last()) + seq!['\t'] + tags.last()
            + seq!['\n']);
    } else {
        lemma_tag_lines_snoc(tags.drop_first());
        assert(tags.drop_first().drop_last() =~= tags.drop_last().drop_first());
        assert(tags.drop_first().last() == tags.last());
        assert(tags.drop_last()[0] == tags[0]);
        assert(tag_lines(tags) =~= tag_lines(tags.drop_last()) + seq!['\t'] + tags.last()
            + seq!['\n']);
    }
}

/// Format the `package info` output for an existing tag.
pub fn format_package_info() -> (r: String)
    ensures
        r@ == package_info_text(),
{
    "Package exists\n".to_owned()
}

/// Map the outcome of the `user info` registry call to the command's
/// output: the formatted record on success, the operation's failure
/// otherwise.
pub fn user_info_outcome(get: Result<UserRecord, RegistryOperationError>) -> (r: Result<
    String,
    RegistryOperationError,
>)
    ensures
        get matches Ok(rec) ==> (r matches Ok(out) && out@ == user_info_text(rec.subject@)),
        get matches Err(e) ==> (r matches Err(e2) && e2.message@ == e.message@),
{
    match get {
        Ok(rec) => Ok(format_user_info(&rec)),
        Err(e) => Err(e),
    }
}

/// Map the outcomes of the two `repo info` registry calls to the command's
/// output. Output is produced only when both calls succeeded; otherwise the
/// first failure is passed on and nothing is printed.
pub fn repo_info_outcome(
    get: Result<bool, RegistryOperationError>,
    tags: Result<Vec<String>, RegistryOperationError>,
) -> (r: Result<String, RegistryOperationError>)
    ensures
        get matches Ok(public) ==> (tags matches Ok(ts) ==> (r matches Ok(out) && out@
            == repo_info_text(public, seq_views(ts@)))),
        get matches Err(e) ==> (r matches Err(e2) && e2.message@ == e.message@),
        get matches Ok(public) ==> (tags matches Err(e) ==> (r matches Err(e2) && e2.message@
            == e.message@)),
{
    match get {
        Err(e) => Err(e),
        Ok(public) => match tags {
            Err(e) => Err(e),
            Ok(ts) => Ok(format_repo_info(public, &ts)),
        },
    }
}

/// Map the outcome of the `package info` registry call to the command's
/// output: the fixed confirmation when the tag exists.
pub fn package_info_outcome(get: Result<(), RegistryOperationError>) -> (r: Result<
    String,
    RegistryOperationError,
>)
    ensures
        get is Ok ==> (r matches Ok(out) && out@ == package_info_text()),
        get matches Err(e) ==> (r matches Err(e2) && e2.message@ == e.message@),
{
    match get {
        Ok(()) => Ok(format_package_info()),
        Err(e) => Err(e),
    }
}

} // verus!
