//! What the runtime is started with: the socket path that is made for each
//! worker, and the command line.
//!
//! The command line is the caller's command and leading arguments, `run`, the
//! composed flags, the bootstrap script, and three arguments for that script:
//! the socket path, the word `script` or `import`, and the source text or the
//! reference of the module.

use vstd::prelude::*;
use vstd::string::StringExecFns;
use vstd::string::StrSliceExecFns;
use vstd::utf8::is_ascii_chars;
use vstd::utf8::is_ascii_chars_encode_utf8;

use crate::flags::composed_flags;
use crate::flags::prepare_run_flags;
use crate::options::DenoWorkerOptions;
use crate::request::MAX_SOCKET_PATH_BYTES;
use crate::text::chars_of;
use crate::text::ascii_lower;
use crate::text::begins_ignoring_ascii_case;
use crate::text::lemma_bytes_of_joined;
use crate::text::matches_at;
use crate::text::occurs_at;
use crate::text::starts_with_ignoring_ascii_case;
use crate::text::texts;
use crate::text::utf8_len;

verus! {

/// The longest directory, in bytes of UTF-8, in which a socket path can be
/// made: the name of the socket file takes 48 bytes, the separator one.
pub const MAX_TEMP_DIR_BYTES: usize = 32713;

/// What the name of every socket file ends with.
pub open spec fn socket_suffix() -> Seq<char> {
    "-worker.sock"@
}

/// A digit of lower-case hexadecimal notation.
pub open spec fn is_lower_hex(c: char) -> bool {
    ('0' <= c && c <= '9') || ('a' <= c && c <= 'f')
}

/// The shape of the identifier in a socket path: 32 hexadecimal digits in
/// five groups, with a hyphen between one group and the next.
pub open spec fn is_worker_id(id: Seq<char>) -> bool {
    &&& id.len() == 36
    &&& forall|i: int|
        0 <= i < 36 ==> if i == 8 || i == 13 || i == 18 || i == 23 {
            #[trigger] id[i] == '-'
        } else {
            is_lower_hex(id[i])
        }
}

/// The directory as the socket path begins with it: with a separator at its
/// end, unless it is empty.
pub open spec fn directory_part(temp_dir: Seq<char>) -> Seq<char> {
    if temp_dir.len() == 0 || temp_dir.last() == '/' {
        temp_dir
    } else {
        temp_dir + seq!['/']
    }
}

/// The path of the socket file with the identifier `id` in the directory
/// `temp_dir`.
pub open spec fn socket_path_text(temp_dir: Seq<char>, id: Seq<char>) -> Seq<char> {
    directory_part(temp_dir) + id + socket_suffix()
}

/// What a reference to a local file begins with when it is written as a URL.
pub open spec fn file_scheme() -> Seq<char> {
    "file://"@
}

/// What follows the name of a scheme in a URL.
pub open spec fn scheme_mark() -> Seq<char> {
    "://"@
}

/// A letter of the ASCII alphabet.
pub open spec fn is_ascii_letter(c: char) -> bool {
    ('a' <= c && c <= 'z') || ('A' <= c && c <= 'Z')
}

/// A character that the name of a scheme can hold: a letter, a digit, `+`,
/// `-` or `.`.
pub open spec fn is_scheme_char(c: char) -> bool {
    is_ascii_letter(c) || ('0' <= c && c <= '9') || c == '+' || c == '-' || c == '.'
}

/// The name of a scheme: a letter, then letters, digits, `+`, `-` and `.`.
pub open spec fn is_scheme_name(name: Seq<char>) -> bool {
    &&& name.len() > 0
    &&& is_ascii_letter(name[0])
    &&& forall|i: int| 0 <= i < name.len() ==> is_scheme_char(#[trigger] name[i])
}

/// The reference is a URL with a scheme: it begins with the name of a scheme,
/// and `://` follows the name.
pub open spec fn names_scheme(reference: Seq<char>) -> bool {
    exists|n: int|
        0 < n && occurs_at(reference, scheme_mark(), n) && is_scheme_name(
            #[trigger] reference.take(n),
        )
}

/// The reference is a URL with the scheme `file`, in any case of its letters.
pub open spec fn is_file_reference(reference: Seq<char>) -> bool {
    begins_ignoring_ascii_case(reference, file_scheme())
}

/// The path that the runtime must be allowed to read, for a module that is
/// loaded by `reference`. A URL with the scheme `file` gives what follows
/// `file://`. A URL with another scheme gives none, because the module is
/// then no local file. Any other reference is a path, and gives itself.
pub open spec fn local_script_path_of(reference: Seq<char>) -> Option<Seq<char>> {
    if is_file_reference(reference) {
        Some(reference.skip(file_scheme().len() as int))
    } else if names_scheme(reference) {
        None
    } else {
        Some(reference)
    }
}

/// The three arguments for the bootstrap script.
pub open spec fn script_arguments_of(
    socket: Seq<char>,
    mode: Seq<char>,
    payload: Seq<char>,
) -> Seq<Seq<char>> {
    seq![socket, mode, payload]
}

/// The arguments of the command that starts the runtime.
pub open spec fn launch_arguments(
    executable: Seq<Seq<char>>,
    flags: Seq<Seq<char>>,
    bootstrap: Seq<char>,
    script_arguments: Seq<Seq<char>>,
) -> Seq<Seq<char>> {
    executable.skip(1) + seq!["run"@] + flags + seq![bootstrap] + script_arguments
}

/// The command line of a worker that runs the source text `script`.
pub open spec fn script_launch(
    options: DenoWorkerOptions,
    socket: Seq<char>,
    script: Seq<char>,
) -> Seq<Seq<char>> {
    launch_arguments(
        texts(options.deno_executable@),
        composed_flags(texts(options.run_flags@), socket, None),
        options.deno_bootstrap_script_path@,
        script_arguments_of(socket, "script"@, script),
    )
}

/// The command line of a worker that imports the module at `reference`.
pub open spec fn import_launch(
    options: DenoWorkerOptions,
    socket: Seq<char>,
    reference: Seq<char>,
) -> Seq<Seq<char>> {
    launch_arguments(
        texts(options.deno_executable@),
        composed_flags(texts(options.run_flags@), socket, local_script_path_of(reference)),
        options.deno_bootstrap_script_path@,
        script_arguments_of(socket, "import"@, reference),
    )
}

/// The command that starts the runtime, and its arguments.
#[derive(Debug)]
pub struct LaunchPlan {
    /// The program to run.
    pub command: String,
    /// Its arguments, in order.
    pub arguments: Vec<String>,
}

/// A socket path in a directory of at most `MAX_TEMP_DIR_BYTES` bytes is
/// short enough for a request target.
pub proof fn lemma_socket_path_fits(temp_dir: Seq<char>, id: Seq<char>)
    requires
        utf8_len(temp_dir) <= MAX_TEMP_DIR_BYTES,
        is_worker_id(id),
    ensures
        utf8_len(socket_path_text(temp_dir, id)) <= MAX_SOCKET_PATH_BYTES,
{
    reveal_strlit("-worker.sock");
    let dir = directory_part(temp_dir);
    let separator = seq!['/'];
    assert(is_ascii_chars(separator));
    assert(is_ascii_chars(id));
    assert(is_ascii_chars(socket_suffix()));
    is_ascii_chars_encode_utf8(separator);
    is_ascii_chars_encode_utf8(id);
    is_ascii_chars_encode_utf8(socket_suffix());
    lemma_bytes_of_joined(temp_dir, separator);
    lemma_bytes_of_joined(dir, id);
    lemma_bytes_of_joined(dir + id, socket_suffix());
}

/// Makes an identifier for a socket path. This calls `uuid::Uuid::new_v4`
/// and writes the identifier as `uuid` displays it: in lower-case
/// hexadecimal digits, grouped by hyphens. Which identifier comes out is a
/// matter of chance; the contract states its shape only. `uuid` takes its
/// random bytes from the operating system and ends the program where it
/// gets none.
#[verifier::external_body]
fn fresh_id() -> (id: String)
    ensures
        is_worker_id(id@),
{
    uuid::Uuid::new_v4().to_string()
}

/// The path of the socket file with the identifier `id` in the directory
/// `temp_dir`.
pub fn socket_path_in(temp_dir: &str, id: &str) -> (path: String)
    ensures
        path@ == socket_path_text(temp_dir@, id@),
{
    let dir = chars_of(temp_dir);
    let mut path = String::from_str(temp_dir);
    if dir.len() > 0 && dir[dir.len() - 1] != '/' {
        proof {
            reveal_strlit("/");
            assert("/"@ =~= seq!['/']);
        }
        path.append("/");
    }
    path.append(id);
    path.append("-worker.sock");
    path
}

/// Makes the path of a socket file in the directory `temp_dir`. Its name
/// begins with an identifier that is drawn by chance, so that two workers
/// get two paths but for a draw that is as good as impossible.
pub fn fresh_socket_path(temp_dir: &str) -> (path: String)
    requires
        utf8_len(temp_dir@) <= MAX_TEMP_DIR_BYTES,
    ensures
        exists|id: Seq<char>| is_worker_id(id) && path@ == #[trigger] socket_path_text(temp_dir@, id),
        utf8_len(path@) <= MAX_SOCKET_PATH_BYTES,
{
    let id = fresh_id();
    let path = socket_path_in(temp_dir, id.as_str());
    proof {
        lemma_socket_path_fits(temp_dir@, id@);
    }
    path
}

/// A character that is equal to `:` or `/` once ASCII capitals are folded is
/// that character, and one that folds to a small letter is a letter.
proof fn lemma_folding_keeps_kinds(c: char)
    ensures
        ascii_lower(c) == ':' ==> c == ':',
        ascii_lower(c) == '/' ==> c == '/',
        'a' <= ascii_lower(c) && ascii_lower(c) <= 'z' ==> is_ascii_letter(c),
{
}

/// A URL with the scheme `file` is a URL with a scheme.
proof fn lemma_file_reference_names_scheme(reference: Seq<char>)
    requires
        is_file_reference(reference),
    ensures
        names_scheme(reference),
        file_scheme().len() == 7,
{
    reveal_strlit("file://");
    reveal_strlit("://");
    let head = reference.take(7);
    assert forall|i: int| 0 <= i < 7 implies ascii_lower(#[trigger] head[i]) == ascii_lower(
        file_scheme()[i],
    ) by {}
    assert forall|i: int| 0 <= i < 7 implies head[i] == reference[i] by {}
    lemma_folding_keeps_kinds(reference[0]);
    lemma_folding_keeps_kinds(reference[1]);
    lemma_folding_keeps_kinds(reference[2]);
    lemma_folding_keeps_kinds(reference[3]);
    lemma_folding_keeps_kinds(reference[4]);
    lemma_folding_keeps_kinds(reference[5]);
    lemma_folding_keeps_kinds(reference[6]);
    assert(ascii_lower(head[0]) == 'f' && ascii_lower(head[1]) == 'i' && ascii_lower(head[2])
        == 'l' && ascii_lower(head[3]) == 'e');
    assert(ascii_lower(head[4]) == ':' && ascii_lower(head[5]) == '/' && ascii_lower(head[6])
        == '/');
    assert(reference.subrange(4, 7) =~= scheme_mark());
    let name = reference.take(4);
    assert forall|i: int| 0 <= i < 4 implies is_scheme_char(#[trigger] name[i]) by {
        assert(name[i] == reference[i]);
    }
    assert(is_scheme_name(name));
}

/// A reference to a local file is granted for reading, and no other: a URL
/// with the scheme `file` gives the path that follows `file://`, a reference
/// that begins with no scheme is a path and gives itself, whatever it holds
/// further on, and a URL with another scheme gives nothing.
pub proof fn local_references_are_granted(reference: Seq<char>)
    ensures
        is_file_reference(reference) ==> local_script_path_of(reference) == Some(
            reference.skip(7),
        ),
        !names_scheme(reference) ==> local_script_path_of(reference) == Some(reference),
        names_scheme(reference) && !is_file_reference(reference) ==> local_script_path_of(
            reference,
        ) is None,
{
    if is_file_reference(reference) {
        lemma_file_reference_names_scheme(reference);
    }
}

/// Tells whether `c` is a character that the name of a scheme can hold.
fn scheme_char(c: char) -> (yes: bool)
    ensures
        yes == is_scheme_char(c),
{
    ('a' <= c && c <= 'z') || ('A' <= c && c <= 'Z') || ('0' <= c && c <= '9') || c == '+' || c
        == '-' || c == '.'
}

/// Tells whether the reference is a URL with a scheme.
pub fn begins_with_scheme(reference: &Vec<char>) -> (found: bool)
    ensures
        found == names_scheme(reference@),
{
    let mark = chars_of("://");
    let mut n: usize = 0;
    while n < reference.len() && scheme_char(reference[n])
        invariant
            n <= reference.len(),
            forall|i: int| 0 <= i < n ==> is_scheme_char(#[trigger] reference@[i]),
        decreases reference.len() - n,
    {
        n += 1;
    }
    let found = n > 0 && (('a' <= reference[0] && reference[0] <= 'z') || ('A' <= reference[0]
        && reference[0] <= 'Z')) && matches_at(reference, &mark, n);
    proof {
        reveal_strlit("://");
        let text = reference@;
        if found {
            let name = text.take(n as int);
            assert forall|i: int| 0 <= i < name.len() implies is_scheme_char(
                #[trigger] name[i],
            ) by {
                assert(name[i] == text[i]);
            }
            assert(name[0] == text[0]);
            assert(is_scheme_name(name));
        }
        if names_scheme(text) {
            let m = choose|m: int|
                0 < m && occurs_at(text, scheme_mark(), m) && is_scheme_name(
                    #[trigger] text.take(m),
                );
            let name = text.take(m);
            assert(text.subrange(m, m + 3)[0] == scheme_mark()[0]);
            assert(text[m] == ':');
            if n < m {
                assert(name[n as int] == text[n as int]);
            }
            if m < n {
                assert(is_scheme_char(text[m]));
            }
            assert(m == n);
            assert(name[0] == text[0]);
        }
    }
    found
}

/// The path that the runtime must be allowed to read, for a module that is
/// loaded by `reference`; `None` where the module is no local file.
pub fn local_script_path(reference: &str) -> (path: Option<String>)
    ensures
        match path {
            Some(p) => local_script_path_of(reference@) == Some(p@),
            None => local_script_path_of(reference@) is None,
        },
{
    let chars = chars_of(reference);
    let file_scheme = chars_of("file://");
    if starts_with_ignoring_ascii_case(&chars, &file_scheme) {
        let rest = reference.substring_char(file_scheme.len(), chars.len());
        Some(String::from_str(rest))
    } else if begins_with_scheme(&chars) {
        None
    } else {
        Some(String::from_str(reference))
    }
}

/// Adds to `out` the strings of `list` from position `from` on.
fn append_texts(out: &mut Vec<String>, list: &Vec<String>, from: usize)
    requires
        from <= list@.len(),
    ensures
        texts(final(out)@) == texts(old(out)@) + texts(list@).skip(from as int),
{
    let mut i: usize = from;
    while i < list.len()
        invariant
            from <= i <= list@.len(),
            texts(out@) == texts(old(out)@) + texts(list@).subrange(from as int, i as int),
        decreases list.len() - i,
    {
        let ghost before = out@;
        out.push(list[i].clone());
        proof {
            assert(texts(out@) =~= texts(before).push(list@[i as int]@));
            assert(texts(list@).subrange(from as int, i + 1) =~= texts(list@).subrange(
                from as int,
                i as int,
            ).push(list@[i as int]@));
        }
        i += 1;
    }
}

/// Adds one string to `out`.
fn append_text(out: &mut Vec<String>, item: &str)
    ensures
        texts(final(out)@) == texts(old(out)@).push(item@),
{
    let ghost before = out@;
    let owned = String::from_str(item);
    out.push(owned);
    assert(texts(out@) =~= texts(before).push(item@));
}

/// The three arguments for the bootstrap script.
pub fn script_arguments(socket_file: &str, mode: &str, payload: &str) -> (out: Vec<String>)
    ensures
        texts(out@) == script_arguments_of(socket_file@, mode@, payload@),
{
    let mut out: Vec<String> = Vec::new();
    assert(texts(out@) =~= Seq::<Seq<char>>::empty());
    append_text(&mut out, socket_file);
    append_text(&mut out, mode);
    append_text(&mut out, payload);
    assert(texts(out@) =~= script_arguments_of(socket_file@, mode@, payload@));
    out
}

/// Puts the command line together: the caller's command and leading
/// arguments, `run`, the flags, the bootstrap script, and the arguments for
/// that script.
pub fn launch_plan(
    options: &DenoWorkerOptions,
    run_flags: &Vec<String>,
    script_arguments: &Vec<String>,
) -> (plan: LaunchPlan)
    requires
        options.names_command(),
    ensures
        plan.command@ == options.deno_executable@[0]@,
        texts(plan.arguments@) == launch_arguments(
            texts(options.deno_executable@),
            texts(run_flags@),
            options.deno_bootstrap_script_path@,
            texts(script_arguments@),
        ),
{
    let command = options.deno_executable[0].clone();
    let mut arguments: Vec<String> = Vec::new();
    assert(texts(arguments@) =~= Seq::<Seq<char>>::empty());
    append_texts(&mut arguments, &options.deno_executable, 1);
    append_text(&mut arguments, "run");
    append_texts(&mut arguments, run_flags, 0);
    append_text(&mut arguments, options.deno_bootstrap_script_path.as_str());
    append_texts(&mut arguments, script_arguments, 0);
    proof {
        assert(texts(run_flags@).skip(0) =~= texts(run_flags@));
        assert(texts(script_arguments@).skip(0) =~= texts(script_arguments@));
        assert(texts(arguments@) =~= launch_arguments(
            texts(options.deno_executable@),
            texts(run_flags@),
            options.deno_bootstrap_script_path@,
            texts(script_arguments@),
        ));
    }
    LaunchPlan { command, arguments }
}

/// The command line of a worker that runs the source text `script` and
/// listens on `socket_file`.
pub fn script_launch_plan(options: &DenoWorkerOptions, socket_file: &str, script: &str) -> (plan:
    LaunchPlan)
    requires
        options.names_command(),
    ensures
        plan.command@ == options.deno_executable@[0]@,
        texts(plan.arguments@) == script_launch(*options, socket_file@, script@),
{
    let mut caller_flags: Vec<String> = Vec::new();
    assert(texts(caller_flags@) =~= Seq::<Seq<char>>::empty());
    append_texts(&mut caller_flags, &options.run_flags, 0);
    assert(texts(caller_flags@) =~= texts(options.run_flags@));
    let flags = prepare_run_flags(caller_flags, socket_file, None);
    let arguments = script_arguments(socket_file, "script", script);
    launch_plan(options, &flags, &arguments)
}

/// The command line of a worker that imports the module at `reference` and
/// listens on `socket_file`.
pub fn import_launch_plan(options: &DenoWorkerOptions, socket_file: &str, reference: &str) -> (plan:
    LaunchPlan)
    requires
        options.names_command(),
    ensures
        plan.command@ == options.deno_executable@[0]@,
        texts(plan.arguments@) == import_launch(*options, socket_file@, reference@),
{
    let mut caller_flags: Vec<String> = Vec::new();
    assert(texts(caller_flags@) =~= Seq::<Seq<char>>::empty());
    append_texts(&mut caller_flags, &options.run_flags, 0);
    assert(texts(caller_flags@) =~= texts(options.run_flags@));
    let readable = local_script_path(reference);
    let flags = match &readable {
        Some(path) => prepare_run_flags(caller_flags, socket_file, Some(path.as_str())),
        None => prepare_run_flags(caller_flags, socket_file, None),
    };
    let arguments = script_arguments(socket_file, "import", reference);
    launch_plan(options, &flags, &arguments)
}

} // verus!
