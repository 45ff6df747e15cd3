use radicle_terminal::remote::{
    locate, locate_in, org_of, plain_domain, rpc_url, seed_url, trim_end_matches, urn_text,
    Located, Org, RemoteError, UrlParts,
};

fn host(host: &str, urn: &str) -> Located {
    Located::Host { host: String::from(host), urn: String::from(urn) }
}

#[test]
fn a_url_leads_to_the_seed_of_an_organisation() {
    assert_eq!(
        locate("radicle://seed.example.org/hnrkabc"),
        Ok(host("seed.example.org", "rad:git:hnrkabc"))
    );
    assert_eq!(
        locate("radicle://seed.example.org.git.git/hnrkabc"),
        Ok(host("seed.example.org", "rad:git:hnrkabc"))
    );
    assert_eq!(
        locate("radicle://0x0000000000000000000000000000000000000001/a/b"),
        Ok(host("0x0000000000000000000000000000000000000001", "rad:git:a/b"))
    );
    assert_eq!(locate("radicle://host/"), Ok(host("host", "rad:git:")));
    assert_eq!(locate("radicle://host"), Err(RemoteError::MissingPath));
}

#[test]
fn anything_else_is_the_name_of_a_project() {
    assert_eq!(
        locate("hnrkabc"),
        Ok(Located::Project { urn: String::from("rad:git:hnrkabc") })
    );
    assert_eq!(locate(""), Ok(Located::Project { urn: String::from("rad:git:") }));
    assert_eq!(
        locate("//no scheme"),
        Ok(Located::Project { urn: String::from("rad:git://no scheme") })
    );
}

#[test]
fn urls_that_name_no_remote() {
    assert_eq!(locate("https://seed.example.org/hnrkabc"), Err(RemoteError::InvalidScheme));
    assert_eq!(locate("radicle:hnrkabc"), Err(RemoteError::InvalidUrl));
    assert_eq!(locate("mailto:a@b.c"), Err(RemoteError::InvalidScheme));
    let parts = |host: Option<&str>, path: &str| UrlParts {
        scheme: String::from("radicle"),
        cannot_be_a_base: false,
        host: host.map(String::from),
        path: String::from(path),
    };
    assert_eq!(locate_in("x", Some(parts(None, "/a"))), Err(RemoteError::InvalidHost));
    assert_eq!(locate_in("x", Some(parts(Some("h.git"), "a"))), Err(RemoteError::MissingPath));
    assert_eq!(locate_in("x", Some(parts(Some("h.git"), ""))), Err(RemoteError::MissingPath));
    assert_eq!(locate_in("x", Some(parts(Some("h.git"), "/a"))), Ok(host("h", "rad:git:a")));
    assert_eq!(locate_in("x", Some(parts(Some(".git"), "/"))), Ok(host("", "rad:git:")));
    assert_eq!(locate_in("x", None), Ok(Located::Project { urn: String::from("rad:git:x") }));
    let mut base = parts(Some("h"), "/a");
    base.cannot_be_a_base = true;
    assert_eq!(locate_in("x", Some(base)), Err(RemoteError::InvalidUrl));
}

#[test]
fn suffixes_are_taken_off_as_often_as_they_stand() {
    let chars = |text: &str| text.chars().collect::<Vec<char>>();
    assert_eq!(trim_end_matches(&chars("a.git.git"), &chars(".git")), 1);
    assert_eq!(trim_end_matches(&chars("a.git.gi"), &chars(".git")), 8);
    assert_eq!(trim_end_matches(&chars(".git"), &chars(".git")), 0);
    assert_eq!(trim_end_matches(&chars("abc"), &chars("")), 3);
    assert_eq!(trim_end_matches(&chars(""), &chars(".git")), 0);
    assert_eq!("a.git.git".trim_end_matches(".git"), "a");
    assert_eq!(urn_text("abc"), "rad:git:abc");
}

#[test]
fn an_organisation_is_an_address_or_a_domain_name() {
    assert_eq!(
        org_of(String::from("0xabc"), true),
        Ok(Org::Address(String::from("0xabc")))
    );
    assert_eq!(
        org_of(String::from("seed.example.org"), false),
        Ok(Org::Name(String::from("seed.example.org")))
    );
    assert_eq!(org_of(String::from("localhost"), false), Err(RemoteError::InvalidHost));
    assert_eq!(org_of(String::new(), false), Err(RemoteError::InvalidHost));
}

#[test]
fn only_names_under_eth_are_looked_up() {
    assert_eq!(
        plain_domain(&Org::Name(String::from("seed.example.org"))),
        Some(String::from("seed.example.org"))
    );
    assert_eq!(plain_domain(&Org::Name(String::from("radicle.eth"))), None);
    assert_eq!(plain_domain(&Org::Name(String::from("eth"))), Some(String::from("eth")));
    assert_eq!(plain_domain(&Org::Address(String::from("0xabc"))), None);
    assert_eq!(rpc_url(None), None);
    assert_eq!(rpc_url(Some(String::new())), None);
    assert_eq!(rpc_url(Some(String::from("http://x"))), Some(String::from("http://x")));
    assert_eq!(seed_url("seed.example.org", "hnrkabc"), "https://seed.example.org/hnrkabc");
}
