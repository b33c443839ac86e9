use vstd::prelude::*;
use vstd::string::StringSliceAdditionalSpecFns;

verus! {

/// Why the SSH setup could not complete.
#[derive(Clone, Copy, Debug, PartialEq, Eq, Structural)]
pub enum ConfigError {
    /// The home directory is not known.
    NoHome,
    /// The `.ssh` directory could not be created.
    CreateDir,
    /// The configuration file could not be opened for appending.
    Open,
    /// The entry could not be written.
    Write,
}

/// Where the SSH configuration lives.
pub struct SshPaths {
    /// The `.ssh` directory.
    pub dir: String,
    /// The configuration file inside it.
    pub file: String,
}

/// Finds the `.ssh` directory and its configuration file under `home`; fails
/// when the home directory is not known.
pub fn ssh_paths(home: Option<&str>) -> (r: Result<SshPaths, ConfigError>)
    ensures
        home is None <==> r == Err::<SshPaths, ConfigError>(ConfigError::NoHome),
        home matches Some(h) ==> r matches Ok(p) && p.dir@ == h@ + "/.ssh"@ && p.file@ == h@ + "/.ssh"@ + "/config"@,
{
    match home {
        None => Err(ConfigError::NoHome),
        Some(h) => {
            let mut dir = String::from_str(h);
            dir.append("/.ssh");
            let mut file = dir.clone();
            file.append("/config");
            Ok(SshPaths { dir, file })
        },
    }
}

/// The line that marks the host entry as present.
pub const MARKER: &'static str = "Host harborshield-dev";

/// What the entry holds before its marker line.
pub const ENTRY_HEAD: &'static str = "\n# HarborShield dev container\n";

/// What the entry holds after its marker line.
pub const ENTRY_TAIL: &'static str = "\n    HostName localhost\n    Port 2222\n    User root\n    StrictHostKeyChecking no\n    UserKnownHostsFile /dev/null\n";

/// The byte that ends a line.
pub const NEWLINE: u8 = 10;

/// `pat` occurs in `text` at `i`, within a single line.
pub open spec fn occurs_in_line_at(text: Seq<u8>, pat: Seq<u8>, i: int) -> bool {
    &&& 0 <= i
    &&& i + pat.len() <= text.len()
    &&& text.subrange(i, i + pat.len()) == pat
    &&& forall|k: int| i <= k < i + pat.len() ==> text[k] != NEWLINE
}

/// Some line of `text` contains `pat`.
pub open spec fn line_contains_spec(text: Seq<u8>, pat: Seq<u8>) -> bool {
    exists|i: int| occurs_in_line_at(text, pat, i)
}

/// Some line of `text` holds the marker.
pub open spec fn has_entry(text: Seq<u8>) -> bool {
    line_contains_spec(text, MARKER.spec_bytes())
}

/// The bytes of the host entry: head, marker line, tail.
pub open spec fn entry_bytes() -> Seq<u8> {
    ENTRY_HEAD.spec_bytes() + MARKER.spec_bytes() + ENTRY_TAIL.spec_bytes()
}

/// Whether some line of `text` contains `pat`.
pub fn line_contains(text: &[u8], pat: &[u8]) -> (r: bool)
    ensures
        r == line_contains_spec(text@, pat@),
{
    let n = text.len();
    let m = pat.len();
    if m == 0 {
        assert(text@.subrange(0, 0) =~= pat@);
        assert(occurs_in_line_at(text@, pat@, 0));
        return true;
    }
    if m > n {
        assert forall|i: int| !occurs_in_line_at(text@, pat@, i) by {}
        return false;
    }
    let last = n - m;
    let mut i: usize = 0;
    while i <= last
        invariant
            n == text@.len(),
            m == pat@.len(),
            0 < m <= n,
            last == n - m,
            forall|p: int| 0 <= p < i ==> !occurs_in_line_at(text@, pat@, p),
        decreases last + 1 - i,
    {
        let mut j: usize = 0;
        let mut going = true;
        while going && j < m
            invariant
                n == text@.len(),
                m == pat@.len(),
                i <= last,
                last == n - m,
                j <= m,
                forall|k: int| 0 <= k < j ==> #[trigger] text@[i + k] == pat@[k] && text@[i + k] != NEWLINE,
                !going ==> j < m && (text@[i + j] != pat@[j as int] || text@[i + j] == NEWLINE),
            decreases m - j + (if going { 1int } else { 0 }),
        {
            let b = text[i + j];
            if b == pat[j] && b != NEWLINE {
                j = j + 1;
            } else {
                going = false;
            }
        }
        if going {
            assert(j == m);
            assert forall|k: int| 0 <= k < m implies #[trigger] text@.subrange(i as int, i + m)[k] == pat@[k] by {
                assert(text@[i + k] == pat@[k]);
            }
            assert(text@.subrange(i as int, i + m) =~= pat@);
            assert forall|k: int| i <= k < i + m implies text@[k] != NEWLINE by {
                assert(text@[i + (k - i)] != NEWLINE);
            }
            assert(occurs_in_line_at(text@, pat@, i as int));
            return true;
        }
        assert(!occurs_in_line_at(text@, pat@, i as int)) by {
            if text@.subrange(i as int, i + m) == pat@ {
                assert(text@.subrange(i as int, i + m)[j as int] == text@[i + j]);
            }
        }
        i = i + 1;
    }
    assert forall|p: int| !occurs_in_line_at(text@, pat@, p) by {}
    false
}

/// Whether the SSH configuration `text` already holds the host entry: some
/// line contains the marker.
pub fn entry_present(text: &[u8]) -> (r: bool)
    ensures
        r == has_entry(text@),
{
    line_contains(text, MARKER.as_bytes())
}

/// Appends the bytes of `s`.
fn push_str_bytes(v: &mut Vec<u8>, s: &str)
    ensures
        final(v)@ == old(v)@ + s.spec_bytes(),
{
    let b = s.as_bytes();
    let mut i: usize = 0;
    while i < b.len()
        invariant
            i <= b@.len(),
            b@ == s.spec_bytes(),
            v@ == old(v)@ + b@.take(i as int),
        decreases b@.len() - i,
    {
        v.push(b[i]);
        i = i + 1;
        assert(v@ =~= old(v)@ + b@.take(i as int));
    }
    assert(b@.take(i as int) =~= b@);
}

/// The bytes of the host entry.
pub fn config_entry() -> (r: Vec<u8>)
    ensures
        r@ == entry_bytes(),
{
    let mut v: Vec<u8> = Vec::new();
    push_str_bytes(&mut v, ENTRY_HEAD);
    push_str_bytes(&mut v, MARKER);
    push_str_bytes(&mut v, ENTRY_TAIL);
    assert(v@ =~= entry_bytes());
    v
}

/// The configuration file after one setup run, given what it held before
/// (`None` when there was no file to read).
pub open spec fn after_setup(existing: Option<Seq<u8>>) -> Seq<u8> {
    match existing {
        Some(text) => if has_entry(text) {
            text
        } else {
            text + entry_bytes()
        },
        None => entry_bytes(),
    }
}

/// What the setup appends to the configuration file, given what the file
/// holds (`None` when it could not be opened): nothing when a line already
/// contains the marker, the whole entry otherwise.
pub fn entry_to_append(existing: Option<&[u8]>) -> (r: Option<Vec<u8>>)
    ensures
        r is None <==> (existing matches Some(t) && has_entry(t@)),
        r matches Some(b) ==> b@ == entry_bytes(),
{
    match existing {
        Some(text) => if entry_present(text) {
            None
        } else {
            Some(config_entry())
        },
        None => Some(config_entry()),
    }
}

/// No byte of the marker ends a line.
pub proof fn lemma_marker_is_one_line()
    ensures
        forall|k: int| 0 <= k < MARKER.spec_bytes().len() ==> MARKER.spec_bytes()[k] != NEWLINE,
{
    reveal_strlit("Host harborshield-dev");
    assert(vstd::string::is_ascii(MARKER));
    vstd::string::is_ascii_spec_bytes(MARKER);
}

/// Running the setup twice in a row writes the entry at most once: after
/// the first run a line holds the marker, and the second run finds it and
/// leaves the file as it was.
pub proof fn lemma_setup_is_idempotent(existing: Option<Seq<u8>>)
    ensures
        has_entry(after_setup(existing)),
        after_setup(Some(after_setup(existing))) == after_setup(existing),
{
    lemma_marker_is_one_line();
    let m = MARKER.spec_bytes();
    let text = match existing {
        Some(t) => if has_entry(t) { t } else { t + entry_bytes() },
        None => entry_bytes(),
    };
    assert(text == after_setup(existing));
    if existing matches Some(t) && has_entry(t) {
    } else {
        let base: Seq<u8> = match existing { Some(t) => t, None => Seq::empty() };
        assert(text =~= base + entry_bytes());
        let i: int = (base.len() + ENTRY_HEAD.spec_bytes().len()) as int;
        assert(text.subrange(i, i + m.len() as int) =~= m);
        assert(occurs_in_line_at(text, m, i));
    }
}

} // verus!
