//! The git version that the tools need, and the git commands that they run.
//! Nothing here starts a process: a command is its list of arguments.

use crate::text::{
    chars_of, digits_of, find_char, find_from, has_prefix, push_char, starts_with, string_of, texts,
};
use vstd::prelude::*;
use vstd::string::*;

verus! {

/// A git version.
#[derive(Clone, Copy, Debug, PartialEq, Eq, PartialOrd, Ord, Structural)]
pub struct Version {
    pub major: u8,
    pub minor: u8,
    pub patch: u8,
}

/// Why a version was refused.
#[derive(Clone, Copy, Debug, PartialEq, Eq, Structural)]
pub enum VersionError {
    /// The text does not start with `git version `, or names no minor version.
    Malformed,
    /// A part of the version is not a number from 0 to 255.
    NotANumber,
    /// The version is older than the one required.
    TooOld,
}

/// Whether `c` is white space.
pub open spec fn is_space(c: char) -> bool {
    let code = c as u32;
    ||| code == 0x20
    ||| 0x09 <= code <= 0x0d
    ||| code == 0x85
    ||| code == 0xa0
    ||| code == 0x1680
    ||| 0x2000 <= code <= 0x200a
    ||| code == 0x2028
    ||| code == 0x2029
    ||| code == 0x202f
    ||| code == 0x205f
    ||| code == 0x3000
}

/// The length of `text` without the white space at its end.
pub open spec fn trimmed_len(text: Seq<char>) -> int
    decreases text.len(),
{
    if text.len() > 0 && is_space(text.last()) {
        trimmed_len(text.drop_last())
    } else {
        text.len() as int
    }
}

/// The value of a decimal digit.
pub open spec fn digit(c: char) -> Option<int> {
    if '0' as u32 <= c as u32 <= '9' as u32 {
        Some(c as u32 - '0' as u32)
    } else {
        None
    }
}

/// The value of a non-empty sequence of decimal digits.
pub open spec fn decimal(digits: Seq<char>) -> Option<int>
    decreases digits.len(),
{
    if digits.len() == 0 {
        None
    } else if digits.len() == 1 {
        digit(digits[0])
    } else {
        match (decimal(digits.drop_last()), digit(digits.last())) {
            (Some(high), Some(low)) => Some(10 * high + low),
            _ => None,
        }
    }
}

/// The number from 0 to 255 that `text` writes: decimal digits, with or
/// without a plus sign in front.
pub open spec fn number(text: Seq<char>) -> Option<u8> {
    let digits = if text.len() > 0 && text[0] == '+' {
        text.subrange(1, text.len() as int)
    } else {
        text
    };
    in_byte(decimal(digits))
}

/// `value` as a number from 0 to 255, if it is one.
pub open spec fn in_byte(value: Option<int>) -> Option<u8> {
    match value {
        Some(value) => if 0 <= value <= 255 {
            Some(value as u8)
        } else {
            None
        },
        None => None,
    }
}

/// The part of a version line that holds the numbers: what follows `prefix`,
/// up to the first blank, without white space at its end.
pub open spec fn release(input: Seq<char>, prefix: Seq<char>) -> Seq<char> {
    let rest = input.subrange(prefix.len() as int, input.len() as int);
    let token = rest.subrange(0, find_from(rest, ' ', 0));
    token.subrange(0, trimmed_len(token))
}

/// The version that `release` names: numbers with dots between them, the
/// third of which may be missing and is then 0. What follows the third
/// number is not read.
pub open spec fn version_of(release: Seq<char>) -> Result<Version, VersionError> {
    let dot1 = find_from(release, '.', 0);
    match number(release.subrange(0, dot1)) {
        None => Err(VersionError::NotANumber),
        Some(major) => if dot1 >= release.len() {
            Err(VersionError::Malformed)
        } else {
            let dot2 = find_from(release, '.', dot1 + 1);
            match number(release.subrange(dot1 + 1, dot2)) {
                None => Err(VersionError::NotANumber),
                Some(minor) => if dot2 >= release.len() {
                    Ok(Version { major, minor, patch: 0 })
                } else {
                    let dot3 = find_from(release, '.', dot2 + 1);
                    match number(release.subrange(dot2 + 1, dot3)) {
                        None => Err(VersionError::NotANumber),
                        Some(patch) => Ok(Version { major, minor, patch }),
                    }
                },
            }
        },
    }
}

/// The version that a line of `git version` states.
pub open spec fn parsed(input: Seq<char>) -> Result<Version, VersionError> {
    if has_prefix(input, "git version "@) {
        version_of(release(input, "git version "@))
    } else {
        Err(VersionError::Malformed)
    }
}

/// The digits of a number are the digits of each of its beginnings: where a
/// sequence of characters is a decimal number, so is each non-empty
/// beginning of it, with a value that is not greater.
pub proof fn lemma_decimal_prefix(digits: Seq<char>, n: int)
    requires
        0 < n <= digits.len(),
        decimal(digits) is Some,
    ensures
        decimal(digits.subrange(0, n)) is Some,
        0 <= decimal(digits.subrange(0, n))->0 <= decimal(digits)->0,
    decreases digits.len(),
{
    if n == digits.len() {
        assert(digits.subrange(0, n) =~= digits);
        lemma_decimal_bounds(digits);
    } else {
        lemma_decimal_prefix(digits.drop_last(), n);
        assert(digits.drop_last().subrange(0, n) =~= digits.subrange(0, n));
    }
}

/// A decimal number is not negative.
pub proof fn lemma_decimal_bounds(digits: Seq<char>)
    requires
        decimal(digits) is Some,
    ensures
        decimal(digits)->0 >= 0,
    decreases digits.len(),
{
    if digits.len() > 1 {
        lemma_decimal_bounds(digits.drop_last());
    }
}

/// Whether `c` is white space.
fn is_whitespace(c: char) -> (space: bool)
    ensures
        space == is_space(c),
{
    let code = c as u32;
    code == 0x20 || (0x09 <= code && code <= 0x0d) || code == 0x85 || code == 0xa0 || code == 0x1680
        || (0x2000 <= code && code <= 0x200a) || code == 0x2028 || code == 0x2029 || code == 0x202f
        || code == 0x205f || code == 0x3000
}

/// The characters with indices in `from..to`.
fn slice_of(chars: &Vec<char>, from: usize, to: usize) -> (part: Vec<char>)
    requires
        from <= to <= chars.len(),
    ensures
        part@ == chars@.subrange(from as int, to as int),
{
    let mut part: Vec<char> = Vec::new();
    let mut i: usize = from;
    while i < to
        invariant
            from <= i <= to <= chars.len(),
            part@ == chars@.subrange(from as int, i as int),
        decreases to - i,
    {
        part.push(chars[i]);
        i += 1;
        assert(part@ =~= chars@.subrange(from as int, i as int));
    }
    part
}

/// The length of `chars` without the white space at its end.
fn trim_end(chars: &Vec<char>) -> (len: usize)
    ensures
        len == trimmed_len(chars@),
        len <= chars.len(),
{
    let mut len: usize = chars.len();
    assert(chars@.subrange(0, len as int) =~= chars@);
    while len > 0 && is_whitespace(chars[len - 1])
        invariant
            len <= chars.len(),
            trimmed_len(chars@.subrange(0, len as int)) == trimmed_len(chars@),
        decreases len,
    {
        proof {
            let before = chars@.subrange(0, len as int);
            assert(before.drop_last() =~= chars@.subrange(0, len - 1));
        }
        len -= 1;
    }
    proof {
        let kept = chars@.subrange(0, len as int);
        if len > 0 {
            assert(kept.last() == chars@[len - 1]);
        }
    }
    len
}

/// Reads a number from 0 to 255.
fn parse_u8(text: &Vec<char>) -> (value: Option<u8>)
    ensures
        value == number(text@),
{
    let start: usize = if text.len() > 0 && text[0] == '+' {
        1
    } else {
        0
    };
    let ghost digits = text@.subrange(start as int, text.len() as int);
    proof {
        if start == 0 {
            assert(digits =~= text@);
        }
    }
    let mut value: u8 = 0;
    let mut i: usize = start;
    while i < text.len()
        invariant
            start <= i <= text.len(),
            digits == text@.subrange(start as int, text.len() as int),
            number(text@) == in_byte(decimal(digits)),
            i > start ==> decimal(digits.subrange(0, i - start)) == Some(value as int),
        decreases text.len() - i,
    {
        let c = text[i];
        let code = c as u32;
        let ghost read = digits.subrange(0, i - start + 1);
        proof {
            assert(read.last() == c);
            assert(read.drop_last() =~= digits.subrange(0, i - start));
            if decimal(digits) is Some {
                lemma_decimal_prefix(digits, i - start + 1);
            }
        }
        if code < '0' as u32 || code > '9' as u32 {
            return None;
        }
        let low = (code - '0' as u32) as u8;
        if i > start && value > 25 {
            return None;
        }
        let high: u8 = if i > start {
            value * 10
        } else {
            0
        };
        if high > 255 - low {
            return None;
        }
        value = high + low;
        i += 1;
    }
    if i == start {
        None
    } else {
        assert(digits.subrange(0, i - start) =~= digits);
        Some(value)
    }
}

/// Reads the version that `release` names.
fn parse_release(release: &Vec<char>) -> (result: Result<Version, VersionError>)
    ensures
        result == version_of(release@),
{
    let dot1 = find_char(release, '.', 0);
    let major = match parse_u8(&slice_of(release, 0, dot1)) {
        Some(major) => major,
        None => return Err(VersionError::NotANumber),
    };
    if dot1 >= release.len() {
        return Err(VersionError::Malformed);
    }
    let dot2 = find_char(release, '.', dot1 + 1);
    let minor = match parse_u8(&slice_of(release, dot1 + 1, dot2)) {
        Some(minor) => minor,
        None => return Err(VersionError::NotANumber),
    };
    if dot2 >= release.len() {
        return Ok(Version { major, minor, patch: 0 });
    }
    let dot3 = find_char(release, '.', dot2 + 1);
    match parse_u8(&slice_of(release, dot2 + 1, dot3)) {
        Some(patch) => Ok(Version { major, minor, patch }),
        None => Err(VersionError::NotANumber),
    }
}

/// Appends the digits of `n` to `text`.
fn push_number(text: &mut String, n: u8)
    ensures
        final(text)@ == old(text)@ + digits_of(n as nat),
{
    if n >= 100 {
        push_char(text, (48u8 + n / 100) as char);
    }
    if n >= 10 {
        push_char(text, (48u8 + (n / 10) % 10) as char);
    }
    push_char(text, (48u8 + n % 10) as char);
    proof {
        reveal_with_fuel(digits_of, 3);
        assert(text@ =~= old(text)@ + digits_of(n as nat));
    }
}

impl Version {
    /// The version that is required: 2.34.0.
    pub fn required() -> (version: Version)
        ensures
            version == (Version { major: 2, minor: 34, patch: 0 }),
    {
        Version { major: 2, minor: 34, patch: 0 }
    }

    /// Whether `self` is older than `other`: majors decide, then minors, then
    /// patches.
    pub open spec fn before(self, other: Version) -> bool {
        ||| self.major < other.major
        ||| self.major == other.major && self.minor < other.minor
        ||| self.major == other.major && self.minor == other.minor && self.patch < other.patch
    }

    /// Whether `self` is older than `other`.
    pub fn is_before(&self, other: &Version) -> (older: bool)
        ensures
            older == self.before(*other),
    {
        self.major < other.major || (self.major == other.major && self.minor < other.minor) || (
        self.major == other.major && self.minor == other.minor && self.patch < other.patch)
    }

    /// Reads a line as `git version` prints it, such as `git version 2.34.1`.
    /// After the numbers a blank and any text may follow.
    pub fn parse(input: &str) -> (result: Result<Version, VersionError>)
        ensures
            result == parsed(input@),
    {
        let chars = chars_of(input);
        let prefix = chars_of("git version ");
        if !starts_with(&chars, &prefix) {
            return Err(VersionError::Malformed);
        }
        let rest = slice_of(&chars, prefix.len(), chars.len());
        let blank = find_char(&rest, ' ', 0);
        let token = slice_of(&rest, 0, blank);
        let kept = trim_end(&token);
        let release = slice_of(&token, 0, kept);
        parse_release(&release)
    }

    /// The version as text: the three numbers with dots between them.
    pub fn to_string(&self) -> (text: String)
        ensures
            text@ == digits_of(self.major as nat) + seq!['.'] + digits_of(self.minor as nat) + seq!['.']
                + digits_of(self.patch as nat),
    {
        let mut text = String::new();
        push_number(&mut text, self.major);
        push_char(&mut text, '.');
        push_number(&mut text, self.minor);
        push_char(&mut text, '.');
        push_number(&mut text, self.patch);
        assert(text@ =~= digits_of(self.major as nat) + seq!['.'] + digits_of(self.minor as nat)
            + seq!['.'] + digits_of(self.patch as nat));
        text
    }
}

impl std::str::FromStr for Version {
    type Err = VersionError;

    fn from_str(input: &str) -> (result: Result<Version, VersionError>)
        ensures
            result == parsed(input@),
    {
        Version::parse(input)
    }
}

/// Accepts the git version of the system if it is not older than the
/// required one.
pub fn check_version(git_version: Version) -> (result: Result<Version, VersionError>)
    ensures
        result == if git_version.before(Version { major: 2, minor: 34, patch: 0 }) {
            Err::<Version, VersionError>(VersionError::TooOld)
        } else {
            Ok::<Version, VersionError>(git_version)
        },
{
    if git_version.is_before(&Version::required()) {
        Err(VersionError::TooOld)
    } else {
        Ok(git_version)
    }
}

/// A patch: a tag on a commit, with a title.
#[derive(Debug, PartialEq, Eq)]
pub struct Patch {
    pub title: String,
    pub tag_name: String,
}

/// The arguments for which git tells the signing key of a repository.
pub fn signing_query() -> (args: Vec<String>)
    ensures
        texts(args@) == seq!["config"@, CONFIG_SIGNING_KEY@],
{
    let mut args: Vec<String> = Vec::new();
    args.push(String::from_str("config"));
    args.push(String::from_str(CONFIG_SIGNING_KEY));
    assert(texts(args@) =~= seq!["config"@, CONFIG_SIGNING_KEY@]);
    args
}

/// Whether signing is configured, given how git answered the
/// [`signing_query`]: it is if git knew a signing key.
pub fn is_signing_configured<T, E>(answer: &Result<T, E>) -> (configured: bool)
    ensures
        configured == answer is Ok,
{
    answer.is_ok()
}

/// The name of the branch that tracks `branch` of `remote`.
pub open spec fn tracking_branch(remote: Seq<char>, branch: Seq<char>) -> Seq<char> {
    remote + seq!['/'] + branch
}

/// The arguments with which git makes the branch that tracks `branch` of
/// `remote`.
pub open spec fn upstream_args(remote: Seq<char>, branch: Seq<char>) -> Seq<Seq<char>> {
    seq!["branch"@, tracking_branch(remote, branch), remote + "/heads/"@ + branch]
}

/// The name of the branch that tracks `branch` of `remote`, and the
/// arguments with which git makes it.
pub fn set_upstream(remote: &str, branch: &str) -> (result: (String, Vec<String>))
    ensures
        result.0@ == tracking_branch(remote@, branch@),
        texts(result.1@) == upstream_args(remote@, branch@),
{
    let mut branch_name = String::from_str(remote);
    push_char(&mut branch_name, '/');
    branch_name.append(branch);
    let mut head = String::from_str(remote);
    head.append("/heads/");
    head.append(branch);
    let mut args: Vec<String> = Vec::new();
    args.push(String::from_str("branch"));
    args.push(branch_name.clone());
    args.push(head);
    proof {
        assert(branch_name@ =~= tracking_branch(remote@, branch@));
        assert(texts(args@) =~= upstream_args(remote@, branch@));
    }
    (branch_name, args)
}

/// The arguments of a pull, which is forced where `force` is set.
pub open spec fn pull_args(force: bool) -> Seq<Seq<char>> {
    let args = seq!["-c"@, "color.diff=always"@, "pull"@, "-v"@];
    if force {
        args.push("--force"@)
    } else {
        args
    }
}

/// The arguments with which git pulls.
pub fn pull(force: bool) -> (args: Vec<String>)
    ensures
        texts(args@) == pull_args(force),
{
    let mut args: Vec<String> = Vec::new();
    args.push(String::from_str("-c"));
    args.push(String::from_str("color.diff=always"));
    args.push(String::from_str("pull"));
    args.push(String::from_str("-v"));
    if force {
        args.push(String::from_str("--force"));
    }
    assert(texts(args@) =~= pull_args(force));
    args
}

/// The arguments with which git clones `repo` into `destination`.
pub fn clone(repo: &str, destination: &str) -> (args: Vec<String>)
    ensures
        texts(args@) == seq!["clone"@, repo@, destination@],
{
    let mut args: Vec<String> = Vec::new();
    args.push(String::from_str("clone"));
    args.push(String::from_str(repo));
    args.push(String::from_str(destination));
    assert(texts(args@) =~= seq!["clone"@, repo@, destination@]);
    args
}

/// The arguments of a push of a tag. Where the push is not forced, the
/// place of `--force` is taken by an empty argument.
pub open spec fn push_tag_args(tag_name: Seq<char>, force: bool) -> Seq<Seq<char>> {
    seq![
        "push"@,
        if force {
            "--force"@
        } else {
            ""@
        },
        "rad"@,
        "tag"@,
        tag_name,
    ]
}

/// The arguments with which git pushes the tag `tag_name`.
pub fn push_tag(tag_name: &str, force: bool) -> (args: Vec<String>)
    ensures
        texts(args@) == push_tag_args(tag_name@, force),
{
    let mut args: Vec<String> = Vec::new();
    args.push(String::from_str("push"));
    args.push(String::from_str(if force {
        "--force"
    } else {
        ""
    }));
    args.push(String::from_str("rad"));
    args.push(String::from_str("tag"));
    args.push(String::from_str(tag_name));
    assert(texts(args@) =~= push_tag_args(tag_name@, force));
    args
}

/// The setting that says whether commits are signed.
pub const CONFIG_COMMIT_GPG_SIGN: &'static str = "commit.gpgsign";

/// The setting that names the signing key.
pub const CONFIG_SIGNING_KEY: &'static str = "user.signingkey";

/// The setting that names the format of signatures.
pub const CONFIG_GPG_FORMAT: &'static str = "gpg.format";

/// The setting that names the program that signs.
pub const CONFIG_GPG_SSH_PROGRAM: &'static str = "gpg.ssh.program";

/// The setting that names the file of allowed signers.
pub const CONFIG_GPG_SSH_ALLOWED_SIGNERS: &'static str = "gpg.ssh.allowedSignersFile";

/// The texts of a list of commands.
pub open spec fn command_texts(commands: Seq<Vec<String>>) -> Seq<Seq<Seq<char>>> {
    Seq::new(commands.len(), |i: int| texts(commands[i]@))
}

/// The arguments with which git sets `name` to `value` in a repository.
pub open spec fn setting(name: Seq<char>, value: Seq<char>) -> Seq<Seq<char>> {
    seq!["config"@, "--local"@, name, value]
}

/// The arguments with which git sets `name` to `value` in a repository.
pub fn set_config(name: &str, value: &str) -> (args: Vec<String>)
    ensures
        texts(args@) == setting(name@, value@),
{
    let mut args: Vec<String> = Vec::new();
    args.push(String::from_str("config"));
    args.push(String::from_str("--local"));
    args.push(String::from_str(name));
    args.push(String::from_str(value));
    assert(texts(args@) =~= setting(name@, value@));
    args
}

/// The commands that configure signing with the SSH key `key`: the key,
/// the format, signing of every commit, the program that signs, and the
/// file of allowed signers.
pub open spec fn signing_settings(key: Seq<char>) -> Seq<Seq<Seq<char>>> {
    seq![
        setting(CONFIG_SIGNING_KEY@, key),
        setting(CONFIG_GPG_FORMAT@, "ssh"@),
        setting(CONFIG_COMMIT_GPG_SIGN@, "true"@),
        setting(CONFIG_GPG_SSH_PROGRAM@, "ssh-keygen"@),
        setting(CONFIG_GPG_SSH_ALLOWED_SIGNERS@, ".gitsigners"@),
    ]
}

/// The commands, each as the arguments of git, that configure signing
/// with the SSH key `key` in a repository.
pub fn configure_signing(key: &str) -> (commands: Vec<Vec<String>>)
    ensures
        command_texts(commands@) == signing_settings(key@),
{
    let mut commands: Vec<Vec<String>> = Vec::new();
    commands.push(set_config(CONFIG_SIGNING_KEY, key));
    commands.push(set_config(CONFIG_GPG_FORMAT, "ssh"));
    commands.push(set_config(CONFIG_COMMIT_GPG_SIGN, "true"));
    commands.push(set_config(CONFIG_GPG_SSH_PROGRAM, "ssh-keygen"));
    commands.push(set_config(CONFIG_GPG_SSH_ALLOWED_SIGNERS, ".gitsigners"));
    assert(command_texts(commands@) =~= signing_settings(key@));
    commands
}

/// The line of a signer in the file of allowed signers: the peer, a blank,
/// its key, and a line feed.
pub fn gitsigner(peer: &str, key: &str) -> (line: String)
    ensures
        line@ == peer@ + seq![' '] + key@ + seq!['\n'],
{
    let mut line = String::from_str(peer);
    push_char(&mut line, ' ');
    line.append(key);
    push_char(&mut line, '\n');
    assert(line@ =~= peer@ + seq![' '] + key@ + seq!['\n']);
    line
}

/// `text` cut at its first `mark`: what stands before it and what stands
/// behind it. Nothing where `text` holds no `mark`.
pub open spec fn split_once(text: Seq<char>, mark: char) -> Option<(Seq<char>, Seq<char>)> {
    let at = find_from(text, mark, 0);
    if at < text.len() {
        Some((text.subrange(0, at), text.subrange(at + 1, text.len() as int)))
    } else {
        None
    }
}

/// Cuts `chars` at its first `mark`.
pub fn cut_once(chars: &Vec<char>, mark: char) -> (parts: Option<(String, String)>)
    ensures
        match parts {
            Some((before, behind)) => split_once(chars@, mark) == Some((before@, behind@)),
            None => split_once(chars@, mark) is None,
        },
{
    let at = find_char(chars, mark, 0);
    if at < chars.len() {
        Some((string_of(chars, 0, at), string_of(chars, at + 1, chars.len())))
    } else {
        None
    }
}

/// The peer and the key that a line of the file of allowed signers names:
/// what stands before its first blank, and what stands behind it. A line
/// without a blank names no signer.
pub fn parse_gitsigner(line: &str) -> (signer: Option<(String, String)>)
    ensures
        match signer {
            Some((peer, key)) => split_once(line@, ' ') == Some((peer@, key@)),
            None => split_once(line@, ' ') is None,
        },
{
    cut_once(&chars_of(line), ' ')
}

/// The peer and the reference that the name of a remote reference holds:
/// behind `refs/remotes/`, what stands before the first slash and what
/// stands behind it.
pub open spec fn remote_parts(refspec: Seq<char>) -> Option<(Seq<char>, Seq<char>)> {
    if has_prefix(refspec, "refs/remotes/"@) {
        split_once(refspec.subrange("refs/remotes/"@.len() as int, refspec.len() as int), '/')
    } else {
        None
    }
}

/// The peer and the reference that the name of a remote reference holds.
/// Whether the peer is one is left to the caller.
pub fn parse_remote(refspec: &str) -> (parts: Option<(String, String)>)
    ensures
        match parts {
            Some((peer, reference)) => remote_parts(refspec@) == Some((peer@, reference@)),
            None => remote_parts(refspec@) is None,
        },
{
    let chars = chars_of(refspec);
    let prefix = chars_of("refs/remotes/");
    if !starts_with(&chars, &prefix) {
        return None;
    }
    let mut rest: Vec<char> = Vec::new();
    let mut i: usize = prefix.len();
    while i < chars.len()
        invariant
            prefix.len() <= i <= chars.len(),
            rest@ == chars@.subrange(prefix.len() as int, i as int),
        decreases chars.len() - i,
    {
        rest.push(chars[i]);
        i += 1;
        assert(rest@ =~= chars@.subrange(prefix.len() as int, i as int));
    }
    cut_once(&rest, '/')
}

/// The first seven characters of `id`, or all of it where it is shorter.
pub open spec fn short(id: Seq<char>) -> Seq<char> {
    if id.len() > 7 {
        id.subrange(0, 7)
    } else {
        id
    }
}

/// The short form of the identifier of a commit.
pub fn short_id(id: &str) -> (text: String)
    ensures
        text@ == short(id@),
{
    let chars = chars_of(id);
    let end = if chars.len() > 7 {
        7
    } else {
        chars.len()
    };
    let text = string_of(&chars, 0, end);
    assert(chars@.subrange(0, chars@.len() as int) =~= chars@);
    text
}

/// The range of the commits behind `left` up to `right`, as git takes it:
/// the short forms of both with two dots between them.
pub fn commit_range(left: &str, right: &str) -> (range: String)
    ensures
        range@ == short(left@) + seq!['.', '.'] + short(right@),
{
    let mut range = short_id(left);
    push_char(&mut range, '.');
    push_char(&mut range, '.');
    range.append(short_id(right).as_str());
    assert(range@ =~= short(left@) + seq!['.', '.'] + short(right@));
    range
}

} // verus!
