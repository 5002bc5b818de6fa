//! Materializing a fetched repository tree into one flat textual document.
//!
//! The tree is the result of a completed fetch phase: every directory's
//! listing is present, and the content of a file has been downloaded exactly
//! when the file has a download reference and the classifier says it is text.
//! Rendering walks the tree depth-first, emitting a header for each entry in
//! pre-order, so a directory's header precedes everything inside it.

use vstd::prelude::*;

use crate::classify::is_text_spec;
use crate::strutil::last_pos;

verus! {

/// The outcome of downloading one file's content.
pub enum FetchOutcome {
    /// The download succeeded and returned this text.
    Content(String),
    /// The download returned a non-success status; traversal goes on.
    Failed,
}

/// One file of the repository, as listed by the hosting service.
pub struct FileEntry {
    /// The file's own name.
    pub name: String,
    /// The path relative to the repository root.
    pub path: String,
    /// The byte size reported by the listing, when known.
    pub size: Option<u64>,
    /// The reference from which the raw content can be downloaded.
    pub download_url: Option<String>,
    /// The downloaded content; present exactly when the file has a download
    /// reference and is classified as text.
    pub fetched: Option<FetchOutcome>,
}

/// One directory of the repository with its fetched listing.
pub struct DirEntry {
    /// The directory's own name.
    pub name: String,
    /// The path relative to the repository root.
    pub path: String,
    /// The listing of the directory, in the order the hosting service
    /// returned it.
    pub children: Vec<Node>,
}

/// One entry of the fetched tree.
pub enum Node {
    File(FileEntry),
    Dir(DirEntry),
}

/// The two output flavors; they share traversal and classification and
/// differ only in the surrounding text.
#[derive(Clone, Copy)]
pub enum Flavor {
    Markdown,
    Plain,
}

/// A file entry records downloaded content exactly when it has a download
/// reference and the classifier says it is text.
pub open spec fn file_wf(f: FileEntry) -> bool {
    (f.fetched is Some) <==> (f.download_url is Some && is_text_spec(f.path@))
}

/// Every file entry of the subtree is well-formed.
pub open spec fn node_wf(n: Node) -> bool
    decreases n,
{
    match n {
        Node::File(f) => file_wf(f),
        Node::Dir(d) => forall|i: int|
            0 <= i < d.children@.len() ==> node_wf(#[trigger] d.children@[i]),
    }
}

/// Every file entry of every subtree is well-formed.
pub open spec fn nodes_wf(nodes: Seq<Node>) -> bool {
    forall|i: int| 0 <= i < nodes.len() ==> node_wf(#[trigger] nodes[i])
}

/// The rendering of one entry: its header, then (for a directory) the
/// rendering of its children, or (for a file) its body.
pub open spec fn spec_render_node(n: Node, fl: Flavor) -> Seq<char>
    decreases n, 1int,
{
    match n {
        Node::File(f) => spec_file_block(f, fl),
        Node::Dir(d) => spec_dir_header(d.path@, fl) + spec_render_seq(d.children@, fl),
    }
}

/// The renderings of the entries, concatenated in listing order.
pub open spec fn spec_render_seq(nodes: Seq<Node>, fl: Flavor) -> Seq<char>
    decreases nodes, 0int,
{
    if nodes.len() == 0 {
        Seq::empty()
    } else {
        spec_render_node(nodes[0], fl) + spec_render_seq(nodes.drop_first(), fl)
    }
}

/// The header line(s) announcing a directory.
pub open spec fn spec_dir_header(path: Seq<char>, fl: Flavor) -> Seq<char> {
    match fl {
        Flavor::Markdown => "## Directory: "@ + path + "\n\n"@,
        Flavor::Plain => "Directory: "@ + path + "\n\n"@,
    }
}

/// The rendering of one file: header, then content, failure notice,
/// binary placeholder, or missing-reference notice.
pub open spec fn spec_file_block(f: FileEntry, fl: Flavor) -> Seq<char> {
    spec_file_header(f, fl) + spec_file_body(f, fl)
}

/// The size annotation of a file header: the human-readable size in
/// parentheses when the listing reported one, nothing otherwise.
pub open spec fn spec_size_info(size: Option<u64>) -> Seq<char> {
    match size {
        Some(s) => " ("@ + crate::fmt_size::spec_format_size(s as nat) + ")"@,
        None => Seq::empty(),
    }
}

/// The header line(s) announcing a file.
pub open spec fn spec_file_header(f: FileEntry, fl: Flavor) -> Seq<char> {
    match fl {
        Flavor::Markdown => "### File: "@ + f.path@ + spec_size_info(f.size) + "\n\n"@,
        Flavor::Plain => "File: "@ + f.path@ + spec_size_info(f.size) + "\n"@ + dashes(
            f.path@.len() + 6,
        ) + "\n"@,
    }
}

/// A run of `n` dashes, underlining a plain-flavor file header.
pub open spec fn dashes(n: nat) -> Seq<char> {
    Seq::new(n, |_i: int| '-')
}

/// The body that follows a file header.
pub open spec fn spec_file_body(f: FileEntry, fl: Flavor) -> Seq<char> {
    match f.download_url {
        Option::None => "No download URL available for this file.\n\n"@,
        Option::Some(url) => {
            if is_text_spec(f.path@) {
                match f.fetched {
                    Option::Some(FetchOutcome::Content(c)) => spec_content_block(
                        f.path@,
                        c@,
                        fl,
                    ),
                    _ => "Failed to download file content: "@ + url@ + "\n\n"@,
                }
            } else {
                match fl {
                    Flavor::Markdown => "Binary file, content not included. [Download link]("@
                        + url@ + ")\n\n"@,
                    Flavor::Plain => "Binary file, content not included. Download URL: "@ + url@
                        + "\n\n"@,
                }
            }
        },
    }
}

/// Successfully downloaded content, with a trailing newline ensured; the
/// markdown flavor fences it with a language hint drawn from the path.
pub open spec fn spec_content_block(path: Seq<char>, c: Seq<char>, fl: Flavor) -> Seq<char> {
    let body = c + (if ends_with_newline(c) {
        Seq::<char>::empty()
    } else {
        seq!['\n']
    });
    match fl {
        Flavor::Markdown => "```"@ + spec_lang_hint(path) + "\n"@ + body + "```\n\n"@,
        Flavor::Plain => body + "\n\n"@,
    }
}

/// True when the text already ends in a newline.
pub open spec fn ends_with_newline(c: Seq<char>) -> bool {
    c.len() > 0 && c[c.len() - 1] == '\n'
}

/// The language hint of a fenced block: what follows the last '.' of the
/// path, or the whole path when it has no '.'.
pub open spec fn spec_lang_hint(path: Seq<char>) -> Seq<char> {
    let i = last_pos(path, '.');
    if i >= 0 {
        path.subrange(i + 1, path.len() as int)
    } else {
        path
    }
}

/// The whole document: a heading naming the repository, then the rendered
/// tree.
pub open spec fn spec_document(
    user: Seq<char>,
    repo: Seq<char>,
    nodes: Seq<Node>,
    fl: Flavor,
) -> Seq<char> {
    spec_repo_heading(user, repo, fl) + spec_render_seq(nodes, fl)
}

/// The heading that opens the document.
pub open spec fn spec_repo_heading(user: Seq<char>, repo: Seq<char>, fl: Flavor) -> Seq<char> {
    match fl {
        Flavor::Markdown => "# Repository: "@ + user + "/"@ + repo + "\n\n"@,
        Flavor::Plain => "Repository: "@ + user + "/"@ + repo + "\n\n"@,
    }
}

/// Concatenation is associative (stated for rendering proofs).
proof fn lemma_seq_assoc(a: Seq<char>, b: Seq<char>, c: Seq<char>)
    ensures
        (a + b) + c == a + (b + c),
{
    assert((a + b) + c =~= a + (b + c));
}

/// Rendering one more entry appends its rendering.
proof fn lemma_render_seq_push(nodes: Seq<Node>, x: Node, fl: Flavor)
    ensures
        spec_render_seq(nodes.push(x), fl) == spec_render_seq(nodes, fl) + spec_render_node(
            x,
            fl,
        ),
    decreases nodes.len(),
{
    if nodes.len() == 0 {
        assert(nodes.push(x)[0] == x);
        assert(nodes.push(x).drop_first() =~= Seq::<Node>::empty());
        assert(spec_render_node(x, fl) + spec_render_seq(Seq::<Node>::empty(), fl)
            =~= spec_render_node(x, fl));
        assert(spec_render_seq(nodes, fl) + spec_render_node(x, fl) =~= spec_render_node(x, fl));
    } else {
        assert(nodes.push(x)[0] == nodes[0]);
        assert(nodes.push(x).drop_first() =~= nodes.drop_first().push(x));
        lemma_render_seq_push(nodes.drop_first(), x, fl);
        lemma_seq_assoc(
            spec_render_node(nodes[0], fl),
            spec_render_seq(nodes.drop_first(), fl),
            spec_render_node(x, fl),
        );
    }
}

/// Appends the parenthesized human-readable size, when one is known.
fn append_size_info(out: &mut String, size: &Option<u64>)
    ensures
        final(out)@ == old(out)@ + spec_size_info(*size),
{
    match size {
        Option::Some(s) => {
            out.append(" (");
            let fs = crate::fmt_size::format_file_size(*s);
            out.append(fs.as_str());
            out.append(")");
            proof {
                assert(out@ =~= old(out)@ + spec_size_info(*size));
            }
        },
        Option::None => {
            proof {
                assert(out@ =~= old(out)@ + spec_size_info(*size));
            }
        },
    }
}

/// Appends downloaded content with a trailing newline ensured; the markdown
/// flavor fences it with a language hint.
fn append_content(out: &mut String, path: &String, c: &String, fl: Flavor)
    ensures
        final(out)@ == old(out)@ + spec_content_block(path@, c@, fl),
{
    match fl {
        Flavor::Markdown => {
            out.append("```");
            let plen = path.as_str().unicode_len();
            match crate::strutil::rfind_char(path.as_str(), '.') {
                Option::Some(i) => {
                    proof {
                        crate::strutil::lemma_last_pos_ensures(path@, '.');
                    }
                    let h = path.as_str().substring_char(i + 1, plen);
                    out.append(h);
                },
                Option::None => {
                    out.append(path.as_str());
                },
            }
            out.append("\n");
            append_body(out, c);
            out.append("```\n\n");
            proof {
                assert(out@ =~= old(out)@ + spec_content_block(path@, c@, fl));
            }
        },
        Flavor::Plain => {
            append_body(out, c);
            out.append("\n\n");
            proof {
                assert(out@ =~= old(out)@ + spec_content_block(path@, c@, fl));
            }
        },
    }
}

/// Appends the content itself, adding a newline when it lacks one.
fn append_body(out: &mut String, c: &String)
    ensures
        final(out)@ == old(out)@ + c@ + (if ends_with_newline(c@) {
            Seq::<char>::empty()
        } else {
            seq!['\n']
        }),
{
    out.append(c.as_str());
    let clen = c.as_str().unicode_len();
    let ends = clen > 0 && c.as_str().get_char(clen - 1) == '\n';
    if !ends {
        out.append("\n");
        proof {
            reveal_strlit("\n");
            assert("\n"@ =~= seq!['\n']);
        }
    } else {
        proof {
            assert(out@ =~= old(out)@ + c@ + Seq::<char>::empty());
        }
    }
}

/// Renders one file entry: header, then content, failure notice, binary
/// placeholder, or missing-reference notice.
fn render_file(f: &FileEntry, fl: Flavor, out: &mut String)
    requires
        file_wf(*f),
    ensures
        final(out)@ == old(out)@ + spec_file_block(*f, fl),
{
    match fl {
        Flavor::Markdown => {
            out.append("### File: ");
            out.append(f.path.as_str());
            append_size_info(out, &f.size);
            out.append("\n\n");
            proof {
                assert(out@ =~= old(out)@ + spec_file_header(*f, fl));
            }
        },
        Flavor::Plain => {
            out.append("File: ");
            out.append(f.path.as_str());
            append_size_info(out, &f.size);
            out.append("\n");
            let plen = f.path.as_str().unicode_len();
            let mut i: usize = 0;
            let ghost mid = out@;
            while i < plen
                invariant
                    plen == f.path@.len(),
                    i <= plen,
                    out@ == mid + dashes(i as nat),
                decreases plen - i,
            {
                out.append("-");
                proof {
                    reveal_strlit("-");
                    assert(out@ =~= mid + dashes((i + 1) as nat));
                }
                i = i + 1;
            }
            out.append("------\n");
            proof {
                reveal_strlit("------\n");
                reveal_strlit("\n");
                assert(dashes(plen as nat) + "------\n"@ =~= dashes((plen + 6) as nat) + "\n"@);
                assert(out@ =~= old(out)@ + spec_file_header(*f, fl));
            }
        },
    }
    match &f.download_url {
        Option::None => {
            out.append("No download URL available for this file.\n\n");
        },
        Option::Some(url) => {
            if crate::classify::is_text_file(f.path.as_str()) {
                match &f.fetched {
                    Option::Some(FetchOutcome::Content(c)) => {
                        append_content(out, &f.path, c, fl);
                    },
                    Option::Some(FetchOutcome::Failed) => {
                        out.append("Failed to download file content: ");
                        out.append(url.as_str());
                        out.append("\n\n");
                    },
                    Option::None => {
                        proof {
                            assert(false);
                        }
                    },
                }
            } else {
                match fl {
                    Flavor::Markdown => {
                        out.append("Binary file, content not included. [Download link](");
                        out.append(url.as_str());
                        out.append(")\n\n");
                    },
                    Flavor::Plain => {
                        out.append("Binary file, content not included. Download URL: ");
                        out.append(url.as_str());
                        out.append("\n\n");
                    },
                }
            }
        },
    }
    proof {
        assert(out@ =~= old(out)@ + spec_file_block(*f, fl));
    }
}

/// Renders one entry of the tree, depth-first.
fn render_node(n: &Node, fl: Flavor, out: &mut String)
    requires
        node_wf(*n),
    ensures
        final(out)@ == old(out)@ + spec_render_node(*n, fl),
    decreases *n,
{
    match n {
        Node::File(f) => {
            render_file(f, fl, out);
        },
        Node::Dir(d) => {
            match fl {
                Flavor::Markdown => out.append("## Directory: "),
                Flavor::Plain => out.append("Directory: "),
            }
            out.append(d.path.as_str());
            out.append("\n\n");
            let ghost mid = out@;
            proof {
                assert(mid =~= old(out)@ + spec_dir_header(d.path@, fl));
            }
            let len = d.children.len();
            let mut i: usize = 0;
            while i < len
                invariant
                    forall|j: int|
                        0 <= j < d.children@.len() ==> node_wf(#[trigger] d.children@[j]),
                    *n == Node::Dir(*d),
                    len == d.children@.len(),
                    i <= len,
                    out@ == mid + spec_render_seq(d.children@.subrange(0, i as int), fl),
                decreases len - i,
            {
                proof {
                    assert(node_wf(d.children@[i as int]));
                    // walk the termination measure down from the node to the child
                    assert(n->Dir_0 == *d);
                    assert(decreases_to!(*n => n->Dir_0));
                    assert(decreases_to!(*d => d.children));
                    assert(decreases_to!(d.children => d.children@));
                    assert(decreases_to!(d.children@ => d.children@[i as int]));
                    assert(decreases_to!(*n => d.children@[i as int]));
                }
                render_node(&d.children[i], fl, out);
                proof {
                    assert(d.children@.subrange(0, (i + 1) as int) =~= d.children@.subrange(
                        0,
                        i as int,
                    ).push(d.children@[i as int]));
                    lemma_render_seq_push(
                        d.children@.subrange(0, i as int),
                        d.children@[i as int],
                        fl,
                    );
                    lemma_seq_assoc(
                        mid,
                        spec_render_seq(d.children@.subrange(0, i as int), fl),
                        spec_render_node(d.children@[i as int], fl),
                    );
                }
                i = i + 1;
            }
            proof {
                assert(d.children@.subrange(0, len as int) =~= d.children@);
                lemma_seq_assoc(
                    old(out)@,
                    spec_dir_header(d.path@, fl),
                    spec_render_seq(d.children@, fl),
                );
            }
        },
    }
}

/// Builds the whole document for one fetched tree.
fn materialize(username: &str, repo: &str, nodes: &Vec<Node>, fl: Flavor) -> (r: String)
    requires
        nodes_wf(nodes@),
    ensures
        r@ == spec_document(username@, repo@, nodes@, fl),
{
    let mut out = String::new();
    match fl {
        Flavor::Markdown => out.append("# Repository: "),
        Flavor::Plain => out.append("Repository: "),
    }
    out.append(username);
    out.append("/");
    out.append(repo);
    out.append("\n\n");
    let ghost mid = out@;
    proof {
        assert(mid =~= spec_repo_heading(username@, repo@, fl));
    }
    let len = nodes.len();
    let mut i: usize = 0;
    while i < len
        invariant
            nodes_wf(nodes@),
            len == nodes@.len(),
            i <= len,
            out@ == mid + spec_render_seq(nodes@.subrange(0, i as int), fl),
        decreases len - i,
    {
        render_node(&nodes[i], fl, &mut out);
        proof {
            assert(nodes@.subrange(0, (i + 1) as int) =~= nodes@.subrange(0, i as int).push(
                nodes@[i as int],
            ));
            lemma_render_seq_push(nodes@.subrange(0, i as int), nodes@[i as int], fl);
            lemma_seq_assoc(
                mid,
                spec_render_seq(nodes@.subrange(0, i as int), fl),
                spec_render_node(nodes@[i as int], fl),
            );
        }
        i = i + 1;
    }
    proof {
        assert(nodes@.subrange(0, len as int) =~= nodes@);
    }
    out
}

/// Materializes a fetched tree as a markdown document.
pub fn materialize_markdown(username: &str, repo: &str, nodes: &Vec<Node>) -> (r: String)
    requires
        nodes_wf(nodes@),
    ensures
        r@ == spec_document(username@, repo@, nodes@, Flavor::Markdown),
{
    materialize(username, repo, nodes, Flavor::Markdown)
}

/// Materializes a fetched tree as a plain-text document.
pub fn materialize_text(username: &str, repo: &str, nodes: &Vec<Node>) -> (r: String)
    requires
        nodes_wf(nodes@),
    ensures
        r@ == spec_document(username@, repo@, nodes@, Flavor::Plain),
{
    materialize(username, repo, nodes, Flavor::Plain)
}

/// Materialization is deterministic: two documents of the same repository
/// name and the same fetched tree are identical, character for character.
pub proof fn lemma_materialize_deterministic(
    user: Seq<char>,
    repo: Seq<char>,
    nodes: Seq<Node>,
    fl: Flavor,
    d1: Seq<char>,
    d2: Seq<char>,
)
    requires
        d1 == spec_document(user, repo, nodes, fl),
        d2 == spec_document(user, repo, nodes, fl),
    ensures
        d1 == d2,
{
}

/// Pre-order traversal: a directory renders as its header followed by its
/// children's renderings, in listing order.
pub proof fn lemma_dir_preorder(d: DirEntry, fl: Flavor)
    ensures
        spec_render_node(Node::Dir(d), fl) == spec_dir_header(d.path@, fl) + spec_render_seq(
            d.children@,
            fl,
        ),
{
}

/// Each entry renders independently: the document splits around any one
/// entry into what comes before it, its own rendering, and what comes after,
/// whatever that entry's outcome was.
pub proof fn lemma_render_seq_decompose(nodes: Seq<Node>, i: int, fl: Flavor)
    requires
        0 <= i < nodes.len(),
    ensures
        spec_render_seq(nodes, fl) == spec_render_seq(nodes.take(i), fl) + spec_render_node(
            nodes[i],
            fl,
        ) + spec_render_seq(nodes.skip(i + 1), fl),
    decreases i,
{
    if i == 0 {
        assert(nodes.take(0) =~= Seq::<Node>::empty());
        assert(nodes.skip(1) =~= nodes.drop_first());
        assert(spec_render_seq(nodes.take(0), fl) + spec_render_node(nodes[0], fl)
            =~= spec_render_node(nodes[0], fl));
    } else {
        lemma_render_seq_decompose(nodes.drop_first(), i - 1, fl);
        assert(nodes.drop_first().take(i - 1) =~= nodes.take(i).drop_first());
        assert(nodes.drop_first()[i - 1] == nodes[i]);
        assert(nodes.drop_first().skip(i) =~= nodes.skip(i + 1));
        assert(nodes.take(i)[0] == nodes[0]);
        assert(spec_render_seq(nodes.take(i), fl) == spec_render_node(nodes[0], fl)
            + spec_render_seq(nodes.drop_first().take(i - 1), fl));
        assert(spec_render_seq(nodes, fl) =~= spec_render_seq(nodes.take(i), fl)
            + spec_render_node(nodes[i], fl) + spec_render_seq(nodes.skip(i + 1), fl));
    }
}

/// Failure isolation: a file whose content download failed renders as its
/// header followed by a notice naming the download reference; the failure
/// changes nothing else in the document.
pub proof fn lemma_failed_fetch_notice(f: FileEntry, fl: Flavor)
    requires
        f.download_url is Some,
        is_text_spec(f.path@),
        f.fetched == Some(FetchOutcome::Failed),
    ensures
        spec_render_node(Node::File(f), fl) == spec_file_header(f, fl) + (
        "Failed to download file content: "@ + f.download_url->0@ + "\n\n"@),
{
}

} // verus!
