use vstd::prelude::*;

verus! {

/// The environment variable through which an agent's address is passed on,
/// and the key of the line in which the backend reports its own.
pub const AUTH_SOCK_VAR: &'static str = "SSH_AUTH_SOCK";

/// Why the backend's address could not be found.
#[derive(Debug, Clone, Copy, PartialEq, Eq, Structural)]
pub enum LaunchError {
    /// The backend's foreground process ended with a failure status.
    AgentFailed,
    /// The backend's output held no `SSH_AUTH_SOCK=` line.
    MissingAuthSock,
}

/// The text that opens the line carrying the backend's address.
pub open spec fn sock_prefix() -> Seq<char> {
    seq!['S', 'S', 'H', '_', 'A', 'U', 'T', 'H', '_', 'S', 'O', 'C', 'K', '=']
}

/// Whether a line of `t` starts at `i` and opens with `SSH_AUTH_SOCK=`.
pub open spec fn opens_with_prefix(t: Seq<char>, i: int) -> bool {
    &&& 0 <= i
    &&& i == 0 || t[i - 1] == '\n'
    &&& i + sock_prefix().len() <= t.len()
    &&& t.subrange(i, i + sock_prefix().len()) == sock_prefix()
}

/// The first position at or after `j` that holds `;` or a line break, or
/// the length of `t` if there is none.
pub open spec fn value_end(t: Seq<char>, j: int) -> int
    decreases t.len() - j,
{
    if j >= t.len() {
        t.len() as int
    } else if t[j] == ';' || t[j] == '\n' {
        j
    } else {
        value_end(t, j + 1)
    }
}

/// Whether a line of `t` starts at `i` in the shape
/// `SSH_AUTH_SOCK=<address>;<anything>`.
pub open spec fn is_sock_line(t: Seq<char>, i: int) -> bool {
    let k = value_end(t, i + sock_prefix().len());
    &&& opens_with_prefix(t, i)
    &&& k < t.len()
    &&& t[k] == ';'
}

/// The address on the `SSH_AUTH_SOCK=` line at `i`: what lies between the
/// `=` and the first `;`.
pub open spec fn value_at(t: Seq<char>, i: int) -> Seq<char> {
    t.subrange(i + sock_prefix().len(), value_end(t, i + sock_prefix().len()))
}

/// Whether `i` is the first `SSH_AUTH_SOCK=` line of `t`.
pub open spec fn is_first_sock_line(t: Seq<char>, i: int) -> bool {
    is_sock_line(t, i) && forall|j: int| 0 <= j < i ==> !#[trigger] is_sock_line(t, j)
}

/// The address that the backend reports in its output `t`, if any: the one
/// on the first line of the shape `SSH_AUTH_SOCK=<address>;<anything>`.
pub open spec fn auth_sock_of(t: Seq<char>) -> Option<Seq<char>> {
    if exists|i: int| is_first_sock_line(t, i) {
        Some(value_at(t, choose|i: int| is_first_sock_line(t, i)))
    } else {
        None
    }
}

proof fn lemma_value_end_bounds(t: Seq<char>, j: int)
    requires
        0 <= j <= t.len(),
    ensures
        j <= value_end(t, j) <= t.len(),
        forall|m: int| j <= m < value_end(t, j) ==> t[m] != ';' && t[m] != '\n',
        value_end(t, j) < t.len() ==> (t[value_end(t, j)] == ';' || t[value_end(t, j)] == '\n'),
    decreases t.len() - j,
{
    if j < t.len() && t[j] != ';' && t[j] != '\n' {
        lemma_value_end_bounds(t, j + 1);
    }
}

proof fn lemma_first_unique(t: Seq<char>, i: int)
    requires
        is_first_sock_line(t, i),
    ensures
        auth_sock_of(t) == Some(value_at(t, i)),
{
    let c = choose|c: int| is_first_sock_line(t, c);
    assert(is_first_sock_line(t, c));
    if c < i {
        assert(!is_sock_line(t, c));
    } else if i < c {
        assert(!is_sock_line(t, i));
    }
}

/// Whether `s` holds `SSH_AUTH_SOCK=` at position `i`.
fn prefix_at(s: &str, n: usize, i: usize) -> (r: bool)
    requires
        n == s@.len(),
        i <= n,
    ensures
        r == (i + sock_prefix().len() <= n && s@.subrange(i as int, i + sock_prefix().len())
            == sock_prefix()),
{
    let prefix = "SSH_AUTH_SOCK=";
    proof {
        reveal_strlit("SSH_AUTH_SOCK=");
        assert(prefix@ == sock_prefix());
    }
    let m = prefix.unicode_len();
    if n - i < m {
        return false;
    }
    let mut k: usize = 0;
    while k < m
        invariant
            m == sock_prefix().len(),
            prefix@ == sock_prefix(),
            n == s@.len(),
            i + m <= n,
            k <= m,
            forall|q: int| 0 <= q < k ==> s@[i + q] == sock_prefix()[q],
        decreases m - k,
    {
        if s.get_char(i + k) != prefix.get_char(k) {
            assert(s@.subrange(i as int, i + m)[k as int] != sock_prefix()[k as int]);
            return false;
        }
        k = k + 1;
    }
    assert(s@.subrange(i as int, i + m) =~= sock_prefix());
    true
}

/// Finds the backend's address in what it printed: the text between
/// `SSH_AUTH_SOCK=` and the first `;`, on the first line that opens with
/// `SSH_AUTH_SOCK=` and holds a `;`.
pub fn parse_auth_sock(output: &str) -> (r: Result<String, LaunchError>)
    ensures
        match r {
            Ok(v) => auth_sock_of(output@) == Some(v@),
            Err(e) => e == LaunchError::MissingAuthSock && auth_sock_of(output@) is None,
        },
{
    let ghost t = output@;
    let n = output.unicode_len();
    let mut i: usize = 0;
    while i < n
        invariant
            n == t.len(),
            t == output@,
            i <= n,
            forall|j: int| 0 <= j < i ==> !#[trigger] is_sock_line(t, j),
        decreases n - i,
    {
        let at_line_start = i == 0 || output.get_char(i - 1) == '\n';
        if at_line_start && prefix_at(output, n, i) {
            // the address starts right after `SSH_AUTH_SOCK=`
            let start = i + 14;
            let mut k: usize = start;
            proof {
                lemma_value_end_bounds(t, start as int);
            }
            while k < n && output.get_char(k) != ';' && output.get_char(k) != '\n'
                invariant
                    n == t.len(),
                    t == output@,
                    start <= k <= n,
                    start <= value_end(t, start as int) <= n,
                    forall|m: int| start <= m < value_end(t, start as int) ==> t[m] != ';' && t[m] != '\n',
                    value_end(t, start as int) < n ==> (t[value_end(t, start as int)] == ';' || t[value_end(t, start as int)] == '\n'),
                    k <= value_end(t, start as int),
                decreases n - k,
            {
                k = k + 1;
            }
            if k < n && output.get_char(k) == ';' {
                proof {
                    assert(is_first_sock_line(t, i as int));
                    lemma_first_unique(t, i as int);
                }
                let v = output.substring_char(start, k);
                return Ok(v.to_string());
            }
        }
        i = i + 1;
    }
    proof {
        assert forall|c: int| !is_first_sock_line(t, c) by {
            if is_first_sock_line(t, c) {
                assert(c < n);
                assert(!is_sock_line(t, c));
            }
        }
    }
    Err(LaunchError::MissingAuthSock)
}

/// The program run as the backend: the one configured, or `ssh-agent`
/// looked up on the search path.
pub fn agent_program(configured: Option<String>) -> (r: String)
    ensures
        match configured {
            Some(p) => r@ == p@,
            None => r@ == "ssh-agent"@,
        },
{
    match configured {
        Some(p) => p,
        None => String::from_str("ssh-agent"),
    }
}

/// The backend's address, once its foreground process has ended with
/// `exit_success` as its status and printed `output`. A failure status is
/// fatal whatever was printed.
pub fn launch_outcome(exit_success: bool, output: &str) -> (r: Result<String, LaunchError>)
    ensures
        !exit_success ==> r == Err::<String, LaunchError>(LaunchError::AgentFailed),
        exit_success ==> match r {
            Ok(v) => auth_sock_of(output@) == Some(v@),
            Err(e) => e == LaunchError::MissingAuthSock && auth_sock_of(output@) is None,
        },
{
    if !exit_success {
        return Err(LaunchError::AgentFailed);
    }
    parse_auth_sock(output)
}

} // verus!
