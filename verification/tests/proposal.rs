use radicle_terminal::git::{
    clone, commit_range, configure_signing, gitsigner, is_signing_configured, parse_gitsigner,
    parse_remote, pull, push_tag, set_config, set_upstream, short_id, signing_query, Patch,
    CONFIG_SIGNING_KEY,
};
use radicle_terminal::proposal::{
    day_of, incoming_mark, list_entry, notes_ref, opened_at, opened_words, outgoing_mark, patch_tag_name,
    Metadata, Proposal,
};
use radicle_terminal::propose::{
    distance, first_step, next_step, proposing, ArgsError, Flag, Options, Prompt, Step,
};

#[test]
fn a_proposal_as_the_text_of_a_note() {
    let proposal = Proposal {
        meta: Metadata { title: String::from("Fix it") },
        description: String::from("It was broken.\n"),
    };
    assert_eq!(proposal.to_string(), "\n---\ntitle: 'Fix it'\n---\nIt was broken.\n");
    assert_eq!(Proposal::default().to_string(), "\n---\ntitle: ''\n---\n");
    assert_eq!(
        Proposal::default(),
        Proposal { meta: Metadata { title: String::new() }, description: String::new() }
    );
}

#[test]
fn propose_options() {
    assert_eq!(Options::default(), Options { create: false, verbose: false });
    assert_eq!(Options::from_first(None), Ok(Options { create: false, verbose: false }));
    assert_eq!(
        Options::from_first(Some(Flag::Create)),
        Ok(Options { create: true, verbose: false })
    );
    assert_eq!(
        Options::from_first(Some(Flag::Verbose)),
        Ok(Options { create: false, verbose: true })
    );
    assert_eq!(Options::from_first(Some(Flag::Help)), Err(ArgsError::Help));
    assert_eq!(Options::from_first(Some(Flag::Unexpected)), Err(ArgsError::Unexpected));
}

#[test]
fn git_commands_as_arguments() {
    assert_eq!(pull(false), vec!["-c", "color.diff=always", "pull", "-v"]);
    assert_eq!(pull(true), vec!["-c", "color.diff=always", "pull", "-v", "--force"]);
    assert_eq!(clone("rad://abc", "/tmp/abc"), vec!["clone", "rad://abc", "/tmp/abc"]);
    assert_eq!(push_tag("v1", true), vec!["push", "--force", "rad", "tag", "v1"]);
    assert_eq!(push_tag("v1", false), vec!["push", "", "rad", "tag", "v1"]);
    let (branch, args) = set_upstream("alice", "main");
    assert_eq!(branch, "alice/main");
    assert_eq!(args, vec!["branch", "alice/main", "alice/heads/main"]);
    assert_eq!(signing_query(), vec!["config", "user.signingkey"]);
    let known: Result<String, String> = Ok(String::from("key"));
    let unknown: Result<String, String> = Err(String::from("exit 1"));
    assert!(is_signing_configured(&known));
    assert!(!is_signing_configured(&unknown));
    let patch = Patch { title: String::from("t"), tag_name: String::from("radicle-patch/main") };
    assert_eq!(patch.tag_name, "radicle-patch/main");
}

#[test]
fn comments_are_taken_out_of_a_description() {
    let mut proposal = Proposal {
        meta: Metadata { title: String::from("t") },
        description: String::from("a<!-- b -->c<!---->d\n<!-- e\n-->f"),
    };
    proposal.remove_comment();
    assert_eq!(proposal.description, "acd\n<!-- e\n-->f");
    assert_eq!(proposal.meta.title, "t");
    proposal.describe(None);
    assert_eq!(proposal.description, "acd\n<!-- e\n-->f");
    proposal.describe(Some(String::from("new")));
    assert_eq!(proposal.description, "new");
    assert_eq!(day_of(0), Some(String::from("January 01")));
    assert_eq!(day_of(1_666_958_400), Some(String::from("October 28")));
    assert_eq!(day_of(i64::MAX), None);
}

#[test]
fn proposals_say_when_they_were_opened() {
    let day = 86400;
    assert_eq!(opened_words(0, "May 01"), "0 seconds ago");
    assert_eq!(opened_words(59, "May 01"), "59 seconds ago");
    assert_eq!(opened_words(60, "May 01"), "1 minutes ago");
    assert_eq!(opened_words(3599, "May 01"), "59 minutes ago");
    assert_eq!(opened_words(3600, "May 01"), "1 hours ago");
    assert_eq!(opened_words(day - 1, "May 01"), "23 hours ago");
    assert_eq!(opened_words(day, "May 01"), "yesterday");
    assert_eq!(opened_words(2 * day, "May 01"), "2 days ago");
    assert_eq!(opened_words(3 * day + 5, "May 01"), "3 days ago");
    assert_eq!(opened_words(5 * day - 1, "May 01"), "4 days ago");
    assert_eq!(opened_words(5 * day, "May 01"), "on May 01");
    assert_eq!(opened_words(i64::MAX, "May 01"), "on May 01");
    assert_eq!(opened_words(-5, "May 01"), "-5 seconds ago");
    assert_eq!(opened_words(-61, "May 01"), "-1 minutes ago");
    assert_eq!(opened_words(-7200, "May 01"), "-2 hours ago");
    assert_eq!(opened_words(-day, "May 01"), "on May 01");
    assert_eq!(opened_words(i64::MIN, "May 01"), "on May 01");
    assert_eq!(
        opened_at(0, 30),
        Some(String::from("30 seconds ago"))
    );
    assert_eq!(
        opened_at(1_666_958_400, 1_666_958_400 + 10 * day),
        Some(String::from("on October 28"))
    );
    assert_eq!(
        opened_at(86400 * 31 + 5, 86400 * 40),
        Some(String::from("on February 01"))
    );
    assert_eq!(opened_at(i64::MAX, 0), None);
    assert_eq!(opened_at(i64::MIN, 5), None);
    assert_eq!(opened_at(-10, i64::MAX), None);
}

#[test]
fn proposals_are_listed_in_two_lines() {
    assert_eq!(
        list_entry(
            "0123456789abcdef",
            &outgoing_mark(),
            "Fix it",
            "yesterday",
            "alice"
        ),
        (
            String::from("0123456 [\u{2191}] Fix it"),
            String::from("\u{2514}\u{2500}\u{2500} opened yesterday by alice")
        )
    );
    assert_eq!(incoming_mark(), "[\u{2193}]");
    assert_eq!(
        notes_ref("hnrkabc"),
        "refs/namespaces/hnrkabc/refs/notes/commits"
    );
    assert_eq!(patch_tag_name("main"), "radicle-patch/main");
}

#[test]
fn creating_a_proposal_step_by_step() {
    let mut step = first_step();
    let mut seen = vec![step];
    while step != Step::Done {
        step = next_step(step, true, true);
        seen.push(step);
    }
    assert_eq!(
        seen,
        vec![
            Step::Ask(Prompt::ViewChanges),
            Step::ShowChanges,
            Step::Ask(Prompt::Update),
            Step::Write,
            Step::Ask(Prompt::Submit),
            Step::Publish,
            Step::Ask(Prompt::Sync),
            Step::Synchronize,
            Step::Done,
        ]
    );
    let ask = |prompt| Step::Ask(prompt);
    let next = next_step;
    assert_eq!(
        next(ask(Prompt::ViewChanges), false, false),
        ask(Prompt::Create)
    );
    assert_eq!(
        next(ask(Prompt::Create), false, false),
        Step::Canceled
    );
    assert_eq!(
        next(ask(Prompt::Update), false, true),
        Step::Canceled
    );
    assert_eq!(
        next(ask(Prompt::Submit), false, true),
        Step::Canceled
    );
    assert_eq!(
        next(ask(Prompt::Sync), false, true),
        Step::Done
    );
    assert_eq!(
        next(Step::Canceled, true, true),
        Step::Canceled
    );
    assert_eq!(Prompt::Sync.question(), "Sync to seed?");
    assert_eq!(Prompt::Sync.default_answer(), Some(true));
    assert_eq!(Prompt::ViewChanges.default_answer(), None);
    assert_eq!(
        Prompt::Update.question(),
        "Proposal already exists. Do you want to update?"
    );
    assert_eq!(
        proposing("master", "0123456", "feature", "89abcde"),
        "Proposing master (0123456) <= feature (89abcde)."
    );
    assert_eq!(
        distance(3, 0, "master"),
        "This branch is 3 commit(s) ahead, 0 commit(s) behind master."
    );
}

#[test]
fn more_git_helpers() {
    let commands = configure_signing("ssh-ed25519 AAAA");
    assert_eq!(
        commands,
        vec![
            vec!["config", "--local", "user.signingkey", "ssh-ed25519 AAAA"],
            vec!["config", "--local", "gpg.format", "ssh"],
            vec!["config", "--local", "commit.gpgsign", "true"],
            vec!["config", "--local", "gpg.ssh.program", "ssh-keygen"],
            vec!["config", "--local", "gpg.ssh.allowedSignersFile", ".gitsigners"],
        ]
    );
    assert_eq!(gitsigner("peer", "ssh-ed25519 AAAA"), "peer ssh-ed25519 AAAA\n");
    assert_eq!(
        parse_gitsigner("peer ssh-ed25519 AAAA"),
        Some((String::from("peer"), String::from("ssh-ed25519 AAAA")))
    );
    assert_eq!(
        parse_gitsigner(" key"),
        Some((String::new(), String::from("key")))
    );
    assert_eq!(parse_gitsigner("peer"), None);
    assert_eq!(parse_gitsigner(""), None);
    assert_eq!(
        parse_remote("refs/remotes/hyn123/heads/master"),
        Some((String::from("hyn123"), String::from("heads/master")))
    );
    assert_eq!(parse_remote("refs/remotes/hyn123"), None);
    assert_eq!(parse_remote("refs/heads/master"), None);
    assert_eq!(
        parse_remote("refs/remotes//"),
        Some((String::new(), String::new()))
    );
    assert_eq!(short_id("0123456789abcdef"), "0123456");
    assert_eq!(short_id("0123"), "0123");
    assert_eq!(short_id(""), "");
    assert_eq!(
        commit_range("0123456789", "abcdef0123456"),
        "0123456..abcdef0"
    );
    assert_eq!(CONFIG_SIGNING_KEY, "user.signingkey");
    assert_eq!(
        set_config("a", "b"),
        vec!["config", "--local", "a", "b"]
    );
}

