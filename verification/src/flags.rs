//! The permission-flag composer.
//!
//! The runtime is started with a list of sandbox flags. The worker talks to it
//! over a socket file, so the runtime must be allowed to read and to write
//! that file; a worker loaded from a local script file must be allowed to read
//! that file as well. The composer takes the caller's flags and sees to it
//! that these grants are there, without granting anything twice and without
//! moving or dropping a flag of the caller's.

use vstd::prelude::*;
use vstd::string::StringExecFns;

use crate::text::chars_of;
use crate::text::joined;
use crate::text::matches_at;
use crate::text::occurs_at;
use crate::text::same_text;
use crate::text::starts_with;
use crate::text::texts;

verus! {

/// The flag that allows reading everywhere.
pub open spec fn read_switch() -> Seq<char> {
    "--allow-read"@
}

/// The flag that allows writing everywhere.
pub open spec fn write_switch() -> Seq<char> {
    "--allow-write"@
}

/// The flag that allows everything.
pub open spec fn all_switch() -> Seq<char> {
    "--allow-all"@
}

/// What a flag that lists readable paths begins with.
pub open spec fn read_list_prefix() -> Seq<char> {
    "--allow-read="@
}

/// What a flag that lists writable paths begins with.
pub open spec fn write_list_prefix() -> Seq<char> {
    "--allow-write="@
}

/// In `flag`, whose comma-separated list begins at `start`, the entry that
/// begins at `at` is `path`.
pub open spec fn entry_at(flag: Seq<char>, start: int, path: Seq<char>, at: int) -> bool {
    &&& start <= at
    &&& occurs_at(flag, path, at)
    &&& (at == start || flag[at - 1] == ',')
    &&& (at + path.len() == flag.len() || flag[at + path.len()] == ',')
}

/// The list of `flag`, which begins at `start`, names `path`.
pub open spec fn names_path(flag: Seq<char>, start: int, path: Seq<char>) -> bool {
    exists|at: int| entry_at(flag, start, path, at)
}

/// `flag` with `path` in its list: unchanged where the list names the path
/// already, else with the path added at the end.
pub open spec fn naming(flag: Seq<char>, start: int, path: Seq<char>) -> Seq<char> {
    if names_path(flag, start, path) {
        flag
    } else {
        flag + seq![','] + path
    }
}

/// A flag that lists readable paths, with the socket and, where there is one,
/// the script file in its list.
pub open spec fn granting_read(
    flag: Seq<char>,
    socket: Seq<char>,
    script: Option<Seq<char>>,
) -> Seq<char> {
    let start = read_list_prefix().len() as int;
    let with_socket = naming(flag, start, socket);
    match script {
        Some(path) => naming(with_socket, start, path),
        None => with_socket,
    }
}

/// A flag that lists writable paths, with the socket in its list.
pub open spec fn granting_write(flag: Seq<char>, socket: Seq<char>) -> Seq<char> {
    naming(flag, write_list_prefix().len() as int, socket)
}

/// What becomes of one flag of the caller's: a list of readable or writable
/// paths is completed, any other flag is kept as it is.
pub open spec fn reconciled(
    flag: Seq<char>,
    socket: Seq<char>,
    script: Option<Seq<char>>,
) -> Seq<char> {
    if read_list_prefix().is_prefix_of(flag) {
        granting_read(flag, socket, script)
    } else if write_list_prefix().is_prefix_of(flag) {
        granting_write(flag, socket)
    } else {
        flag
    }
}

/// The flag decides what may be read: it allows everything, allows all
/// reading, or lists the readable paths.
pub open spec fn settles_read(flag: Seq<char>) -> bool {
    flag == read_switch() || flag == all_switch() || read_list_prefix().is_prefix_of(flag)
}

/// The flag decides what may be written.
pub open spec fn settles_write(flag: Seq<char>) -> bool {
    flag == write_switch() || flag == all_switch() || write_list_prefix().is_prefix_of(flag)
}

/// One of the flags decides what may be read.
pub open spec fn read_settled(flags: Seq<Seq<char>>) -> bool {
    exists|i: int| 0 <= i < flags.len() && settles_read(#[trigger] flags[i])
}

/// One of the flags decides what may be written.
pub open spec fn write_settled(flags: Seq<Seq<char>>) -> bool {
    exists|i: int| 0 <= i < flags.len() && settles_write(#[trigger] flags[i])
}

/// The flag that is added where no flag of the caller's decides what may be
/// read.
pub open spec fn fresh_read_flag(socket: Seq<char>, script: Option<Seq<char>>) -> Seq<char> {
    granting_read(read_list_prefix() + socket, socket, script)
}

/// The flag that is added where no flag of the caller's decides what may be
/// written.
pub open spec fn fresh_write_flag(socket: Seq<char>) -> Seq<char> {
    write_list_prefix() + socket
}

/// The caller's flags, each reconciled and in the caller's order.
pub open spec fn reconciled_all(
    flags: Seq<Seq<char>>,
    socket: Seq<char>,
    script: Option<Seq<char>>,
) -> Seq<Seq<char>> {
    Seq::new(flags.len(), |i: int| reconciled(flags[i], socket, script))
}

/// The flags the runtime is started with: the caller's flags reconciled, then
/// a read grant and a write grant where the caller's flags decide nothing.
pub open spec fn composed_flags(
    flags: Seq<Seq<char>>,
    socket: Seq<char>,
    script: Option<Seq<char>>,
) -> Seq<Seq<char>> {
    let kept = reconciled_all(flags, socket, script);
    let read = if read_settled(flags) {
        kept
    } else {
        kept.push(fresh_read_flag(socket, script))
    };
    if write_settled(flags) {
        read
    } else {
        read.push(fresh_write_flag(socket))
    }
}

/// The flags allow reading `path`: by a switch, or by a list that names it.
pub open spec fn permits_read(flags: Seq<Seq<char>>, path: Seq<char>) -> bool {
    exists|i: int|
        0 <= i < flags.len() && {
            let flag = #[trigger] flags[i];
            flag == read_switch() || flag == all_switch() || (read_list_prefix().is_prefix_of(flag)
                && names_path(flag, read_list_prefix().len() as int, path))
        }
}

/// The flags allow writing `path`: by a switch, or by a list that names it.
pub open spec fn permits_write(flags: Seq<Seq<char>>, path: Seq<char>) -> bool {
    exists|i: int|
        0 <= i < flags.len() && {
            let flag = #[trigger] flags[i];
            flag == write_switch() || flag == all_switch() || (write_list_prefix().is_prefix_of(
                flag,
            ) && names_path(flag, write_list_prefix().len() as int, path))
        }
}

/// The view of an optional string.
pub open spec fn optional_text(value: Option<&str>) -> Option<Seq<char>> {
    match value {
        Some(s) => Some(s@),
        None => None,
    }
}

/// No switch is a list: a flag that equals one of the three switches begins
/// with neither list prefix. And the prefix of a read list is no longer than
/// that of a write list.
proof fn lemma_switches_are_no_lists()
    ensures
        read_list_prefix().len() <= write_list_prefix().len(),
        !read_list_prefix().is_prefix_of(read_switch()),
        !read_list_prefix().is_prefix_of(write_switch()),
        !read_list_prefix().is_prefix_of(all_switch()),
        !write_list_prefix().is_prefix_of(read_switch()),
        !write_list_prefix().is_prefix_of(write_switch()),
        !write_list_prefix().is_prefix_of(all_switch()),
{
    reveal_strlit("--allow-read");
    reveal_strlit("--allow-write");
    reveal_strlit("--allow-all");
    reveal_strlit("--allow-read=");
    reveal_strlit("--allow-write=");
    if read_list_prefix().is_prefix_of(write_switch()) {
        assert(write_switch().subrange(0, 13)[8] == read_list_prefix()[8]);
    }
}

/// No flag lists readable and writable paths at once.
proof fn lemma_lists_differ(flag: Seq<char>)
    ensures
        !(read_list_prefix().is_prefix_of(flag) && write_list_prefix().is_prefix_of(flag)),
{
    reveal_strlit("--allow-read=");
    reveal_strlit("--allow-write=");
    if read_list_prefix().is_prefix_of(flag) && write_list_prefix().is_prefix_of(flag) {
        assert(flag.subrange(0, 13)[8] == read_list_prefix()[8]);
        assert(flag.subrange(0, 14)[8] == write_list_prefix()[8]);
    }
}

/// A flag keeps what it begins with when something is added at its end.
proof fn lemma_prefix_survives(prefix: Seq<char>, flag: Seq<char>, longer: Seq<char>)
    requires
        flag.is_prefix_of(longer),
        prefix.len() <= flag.len(),
    ensures
        prefix.is_prefix_of(longer) == prefix.is_prefix_of(flag),
{
    let n = prefix.len() as int;
    assert(longer.subrange(0, n) =~= flag.subrange(0, n)) by {
        assert(flag =~= longer.subrange(0, flag.len() as int));
    }
}

/// Putting a path into a list only adds at the end.
proof fn lemma_naming_extends(flag: Seq<char>, start: int, path: Seq<char>)
    ensures
        flag.is_prefix_of(naming(flag, start, path)),
{
    let longer = naming(flag, start, path);
    assert(flag =~= longer.subrange(0, flag.len() as int));
}

/// After a path was put into a list, the list names it.
proof fn lemma_naming_names(flag: Seq<char>, start: int, path: Seq<char>)
    requires
        start <= flag.len(),
    ensures
        names_path(naming(flag, start, path), start, path),
{
    if !names_path(flag, start, path) {
        let longer = flag + seq![','] + path;
        let at: int = flag.len() as int + 1;
        assert(longer.subrange(at, at + path.len()) =~= path);
        assert(longer[at - 1] == ',');
        assert(entry_at(longer, start, path, at));
    }
}

/// A list goes on naming a path when another path is put into it.
proof fn lemma_naming_keeps(flag: Seq<char>, start: int, path: Seq<char>, other: Seq<char>)
    requires
        0 <= start,
        names_path(flag, start, path),
    ensures
        names_path(naming(flag, start, other), start, path),
{
    if !names_path(flag, start, other) {
        let longer = flag + seq![','] + other;
        let at = choose|at: int| entry_at(flag, start, path, at);
        assert(longer.subrange(at, at + path.len()) =~= flag.subrange(at, at + path.len()));
        assert(longer[flag.len() as int] == ',');
        if at != start {
            assert(longer[at - 1] == flag[at - 1]);
        }
        if at + path.len() != flag.len() {
            assert(longer[at + path.len()] == flag[at + path.len()]);
        }
        assert(entry_at(longer, start, path, at));
    }
}

/// A completed list of readable paths names the socket and the script file,
/// and completing it again changes nothing.
proof fn lemma_granting_read_settles(flag: Seq<char>, socket: Seq<char>, script: Option<Seq<char>>)
    requires
        read_list_prefix().len() <= flag.len(),
    ensures
        flag.is_prefix_of(granting_read(flag, socket, script)),
        names_path(granting_read(flag, socket, script), read_list_prefix().len() as int, socket),
        script matches Some(path) ==> names_path(
            granting_read(flag, socket, script),
            read_list_prefix().len() as int,
            path,
        ),
        granting_read(granting_read(flag, socket, script), socket, script) == granting_read(
            flag,
            socket,
            script,
        ),
{
    let start = read_list_prefix().len() as int;
    let with_socket = naming(flag, start, socket);
    lemma_naming_extends(flag, start, socket);
    lemma_naming_names(flag, start, socket);
    match script {
        Some(path) => {
            let done = naming(with_socket, start, path);
            lemma_naming_extends(with_socket, start, path);
            lemma_naming_names(with_socket, start, path);
            lemma_naming_keeps(with_socket, start, socket, path);
            assert(flag =~= done.subrange(0, flag.len() as int)) by {
                assert(flag =~= with_socket.subrange(0, flag.len() as int));
                assert(with_socket =~= done.subrange(0, with_socket.len() as int));
            }
        },
        None => {},
    }
}

/// Reconciling a flag only adds at its end, keeps what the flag decides, and
/// changes nothing when it is done a second time.
proof fn lemma_reconciled_settles(flag: Seq<char>, socket: Seq<char>, script: Option<Seq<char>>)
    ensures
        flag.is_prefix_of(reconciled(flag, socket, script)),
        settles_read(flag) ==> settles_read(reconciled(flag, socket, script)),
        settles_write(flag) ==> settles_write(reconciled(flag, socket, script)),
        reconciled(reconciled(flag, socket, script), socket, script) == reconciled(
            flag,
            socket,
            script,
        ),
{
    let done = reconciled(flag, socket, script);
    lemma_switches_are_no_lists();
    if read_list_prefix().is_prefix_of(flag) {
        lemma_granting_read_settles(flag, socket, script);
        lemma_prefix_survives(read_list_prefix(), flag, done);
        if write_list_prefix().is_prefix_of(flag) {
            lemma_prefix_survives(write_list_prefix(), flag, done);
        }
    } else if write_list_prefix().is_prefix_of(flag) {
        let start = write_list_prefix().len() as int;
        lemma_naming_extends(flag, start, socket);
        lemma_naming_names(flag, start, socket);
        lemma_prefix_survives(write_list_prefix(), flag, done);
        lemma_prefix_survives(read_list_prefix(), flag, done);
    } else {
        assert(flag =~= flag.subrange(0, flag.len() as int));
    }
}

/// The flag added for reading lists the socket and the script file.
proof fn lemma_fresh_read_flag(socket: Seq<char>, script: Option<Seq<char>>)
    ensures
        read_list_prefix().is_prefix_of(fresh_read_flag(socket, script)),
        reconciled(fresh_read_flag(socket, script), socket, script) == fresh_read_flag(
            socket,
            script,
        ),
        names_path(fresh_read_flag(socket, script), read_list_prefix().len() as int, socket),
        script matches Some(path) ==> names_path(
            fresh_read_flag(socket, script),
            read_list_prefix().len() as int,
            path,
        ),
{
    let bare = read_list_prefix() + socket;
    assert(read_list_prefix() =~= bare.subrange(0, read_list_prefix().len() as int));
    lemma_granting_read_settles(bare, socket, script);
    lemma_prefix_survives(read_list_prefix(), bare, fresh_read_flag(socket, script));
}

/// The flag added for writing lists the socket.
proof fn lemma_fresh_write_flag(socket: Seq<char>, script: Option<Seq<char>>)
    ensures
        write_list_prefix().is_prefix_of(fresh_write_flag(socket)),
        !read_list_prefix().is_prefix_of(fresh_write_flag(socket)),
        names_path(fresh_write_flag(socket), write_list_prefix().len() as int, socket),
        reconciled(fresh_write_flag(socket), socket, script) == fresh_write_flag(socket),
{
    let fresh = fresh_write_flag(socket);
    let start = write_list_prefix().len() as int;
    assert(write_list_prefix() =~= fresh.subrange(0, start));
    assert(fresh.subrange(start, start + socket.len()) =~= socket);
    assert(entry_at(fresh, start, socket, start));
    lemma_lists_differ(fresh);
}

/// The composer moves and drops nothing: each flag of the caller's stands in
/// the result at its own place, at most with paths added at its end, and a
/// flag that lists neither readable nor writable paths stays as it was.
pub proof fn caller_flags_stay_in_place(
    flags: Seq<Seq<char>>,
    socket: Seq<char>,
    script: Option<Seq<char>>,
)
    ensures
        flags.len() <= composed_flags(flags, socket, script).len() <= flags.len() + 2,
        forall|i: int|
            0 <= i < flags.len() ==> (#[trigger] flags[i]).is_prefix_of(
                composed_flags(flags, socket, script)[i],
            ),
        forall|i: int|
            0 <= i < flags.len() && !read_list_prefix().is_prefix_of(#[trigger] flags[i])
                && !write_list_prefix().is_prefix_of(flags[i]) ==> composed_flags(
                flags,
                socket,
                script,
            )[i] == flags[i],
{
    assert forall|i: int| 0 <= i < flags.len() implies (#[trigger] flags[i]).is_prefix_of(
        composed_flags(flags, socket, script)[i],
    ) by {
        lemma_reconciled_settles(flags[i], socket, script);
    }
}

/// What the composer hands back allows the runtime to read and to write the
/// socket file and, where there is one, to read the script file.
pub proof fn composed_flags_grant_access(
    flags: Seq<Seq<char>>,
    socket: Seq<char>,
    script: Option<Seq<char>>,
)
    ensures
        permits_read(composed_flags(flags, socket, script), socket),
        permits_write(composed_flags(flags, socket, script), socket),
        script matches Some(path) ==> permits_read(composed_flags(flags, socket, script), path),
{
    let done = composed_flags(flags, socket, script);
    lemma_switches_are_no_lists();
    if read_settled(flags) {
        let i = choose|i: int| 0 <= i < flags.len() && settles_read(#[trigger] flags[i]);
        lemma_reconciled_settles(flags[i], socket, script);
        if read_list_prefix().is_prefix_of(flags[i]) {
            lemma_granting_read_settles(flags[i], socket, script);
        }
        assert(done[i] == reconciled(flags[i], socket, script));
    } else {
        lemma_fresh_read_flag(socket, script);
        assert(done[flags.len() as int] == fresh_read_flag(socket, script));
    }
    if write_settled(flags) {
        let i = choose|i: int| 0 <= i < flags.len() && settles_write(#[trigger] flags[i]);
        lemma_reconciled_settles(flags[i], socket, script);
        lemma_lists_differ(flags[i]);
        if write_list_prefix().is_prefix_of(flags[i]) {
            lemma_naming_names(flags[i], write_list_prefix().len() as int, socket);
        }
        assert(done[i] == reconciled(flags[i], socket, script));
    } else {
        lemma_fresh_write_flag(socket, script);
        assert(done[done.len() - 1] == fresh_write_flag(socket));
    }
}

/// The composer is idempotent: composing flags that it composed hands them
/// back unchanged.
pub proof fn composing_twice_changes_nothing(
    flags: Seq<Seq<char>>,
    socket: Seq<char>,
    script: Option<Seq<char>>,
)
    ensures
        composed_flags(composed_flags(flags, socket, script), socket, script) == composed_flags(
            flags,
            socket,
            script,
        ),
{
    let once = composed_flags(flags, socket, script);
    lemma_fresh_read_flag(socket, script);
    lemma_fresh_write_flag(socket, script);
    assert forall|i: int| 0 <= i < once.len() implies reconciled(
        #[trigger] once[i],
        socket,
        script,
    ) == once[i] by {
        if i < flags.len() {
            lemma_reconciled_settles(flags[i], socket, script);
        }
    }
    if read_settled(flags) {
        let i = choose|i: int| 0 <= i < flags.len() && settles_read(#[trigger] flags[i]);
        lemma_reconciled_settles(flags[i], socket, script);
        assert(settles_read(once[i]));
    } else {
        assert(settles_read(once[flags.len() as int]));
    }
    if write_settled(flags) {
        let i = choose|i: int| 0 <= i < flags.len() && settles_write(#[trigger] flags[i]);
        lemma_reconciled_settles(flags[i], socket, script);
        assert(settles_write(once[i]));
    } else {
        assert(settles_write(once[once.len() - 1]));
    }
    assert(reconciled_all(once, socket, script) =~= once);
}

/// Tells whether the entry of `flag` that begins at `at` is `path`.
fn is_entry(flag: &Vec<char>, start: usize, path: &Vec<char>, at: usize) -> (found: bool)
    requires
        start <= at,
        at + path.len() <= flag.len(),
    ensures
        found == entry_at(flag@, start as int, path@, at as int),
{
    if !matches_at(flag, path, at) {
        return false;
    }
    if at != start && flag[at - 1] != ',' {
        return false;
    }
    let end: usize = at + path.len();
    end == flag.len() || flag[end] == ','
}

/// Tells whether the list of `flag`, which begins at `start`, names `path`.
fn names(flag: &Vec<char>, start: usize, path: &Vec<char>) -> (found: bool)
    requires
        start <= flag.len(),
    ensures
        found == names_path(flag@, start as int, path@),
{
    if path.len() > flag.len() - start {
        return false;
    }
    let last: usize = flag.len() - path.len();
    let mut at: usize = start;
    while at < last
        invariant
            start <= at <= last,
            last == flag.len() - path.len(),
            forall|j: int| j < at ==> !entry_at(flag@, start as int, path@, j),
        decreases last - at,
    {
        if is_entry(flag, start, path, at) {
            return true;
        }
        at += 1;
    }
    is_entry(flag, start, path, last)
}

/// Puts `path` into the list of `flag`, which begins at `start`, unless the
/// list names it already.
fn with_path(flag: String, start: usize, path: &str) -> (out: String)
    requires
        start <= flag@.len(),
    ensures
        out@ == naming(flag@, start as int, path@),
{
    let chars = chars_of(flag.as_str());
    let wanted = chars_of(path);
    if names(&chars, start, &wanted) {
        flag
    } else {
        proof {
            reveal_strlit(",");
            assert(","@ =~= seq![',']);
        }
        let mut out = flag;
        out.append(",");
        out.append(path);
        out
    }
}

/// Completes a flag that lists readable paths.
fn with_read_paths(flag: String, socket_file: &str, script_path: Option<&str>) -> (out: String)
    requires
        read_list_prefix().len() <= flag@.len(),
    ensures
        out@ == granting_read(flag@, socket_file@, optional_text(script_path)),
{
    let start = chars_of("--allow-read=").len();
    let with_socket = with_path(flag, start, socket_file);
    match script_path {
        Some(path) => with_path(with_socket, start, path),
        None => with_socket,
    }
}

/// Composes the flags that the runtime is started with.
///
/// Every flag of the caller's stays where it is. A flag that lists readable
/// paths gets the socket file and the script file added to its list, a flag
/// that lists writable paths gets the socket file, each only where the list
/// does not name it yet. Where no flag decides what may be read, or written,
/// a flag that grants exactly these paths is added at the end.
pub fn prepare_run_flags(
    run_flags: Vec<String>,
    socket_file: &str,
    script_path: Option<&str>,
) -> (out: Vec<String>)
    ensures
        texts(out@) == composed_flags(
            texts(run_flags@),
            socket_file@,
            optional_text(script_path),
        ),
{
    let read_word = chars_of("--allow-read");
    let write_word = chars_of("--allow-write");
    let all_word = chars_of("--allow-all");
    let read_prefix = chars_of("--allow-read=");
    let write_prefix = chars_of("--allow-write=");
    let ghost socket = socket_file@;
    let ghost script = optional_text(script_path);
    let ghost flags = texts(run_flags@);

    let mut out: Vec<String> = Vec::new();
    let mut read_found = false;
    let mut write_found = false;
    let mut i: usize = 0;
    while i < run_flags.len()
        invariant
            i <= run_flags.len(),
            flags == texts(run_flags@),
            socket == socket_file@,
            script == optional_text(script_path),
            read_word@ == read_switch(),
            write_word@ == write_switch(),
            all_word@ == all_switch(),
            read_prefix@ == read_list_prefix(),
            write_prefix@ == write_list_prefix(),
            out@.len() == i,
            forall|j: int| 0 <= j < i ==> (#[trigger] out@[j])@ == reconciled(flags[j], socket, script),
            read_found == read_settled(flags.take(i as int)),
            write_found == write_settled(flags.take(i as int)),
        decreases run_flags.len() - i,
    {
        let flag: String = run_flags[i].clone();
        let chars = chars_of(flag.as_str());
        assert(chars@ == flags[i as int]);
        let lists_read = starts_with(&chars, &read_prefix);
        let lists_write = starts_with(&chars, &write_prefix);
        let allows_all = same_text(&chars, &all_word);
        let reads = lists_read || allows_all || same_text(&chars, &read_word);
        let writes = lists_write || allows_all || same_text(&chars, &write_word);
        proof {
            let before = flags.take(i as int);
            let after = flags.take(i + 1);
            assert(after[i as int] == flags[i as int]);
            assert forall|j: int| 0 <= j < i implies before[j] == after[j] by {}
            if read_settled(before) {
                let j = choose|j: int| 0 <= j < before.len() && settles_read(#[trigger] before[j]);
                assert(settles_read(after[j]));
            }
            if write_settled(before) {
                let j = choose|j: int| 0 <= j < before.len() && settles_write(#[trigger] before[j]);
                assert(settles_write(after[j]));
            }
            if read_settled(after) && !reads {
                let j = choose|j: int| 0 <= j < after.len() && settles_read(#[trigger] after[j]);
                assert(settles_read(before[j]));
            }
            if write_settled(after) && !writes {
                let j = choose|j: int| 0 <= j < after.len() && settles_write(#[trigger] after[j]);
                assert(settles_write(before[j]));
            }
        }
        read_found = read_found || reads;
        write_found = write_found || writes;
        let kept = if lists_read {
            with_read_paths(flag, socket_file, script_path)
        } else if lists_write {
            with_path(flag, write_prefix.len(), socket_file)
        } else {
            flag
        };
        out.push(kept);
        i += 1;
    }
    proof {
        assert(flags.take(i as int) =~= flags);
        assert(texts(out@) =~= reconciled_all(flags, socket, script));
    }
    if !read_found {
        let fresh = with_read_paths(joined("--allow-read=", socket_file), socket_file, script_path);
        proof {
            assert(texts(out@.push(fresh)) =~= texts(out@).push(fresh@));
        }
        out.push(fresh);
    }
    if !write_found {
        let fresh = joined("--allow-write=", socket_file);
        proof {
            assert(texts(out@.push(fresh)) =~= texts(out@).push(fresh@));
        }
        out.push(fresh);
    }
    out
}

} // verus!
