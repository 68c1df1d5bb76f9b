use tee_worker::a4::{A4Search, A4Step, HoldingQuery, DATE_COUNT, LIT_TOKEN_ADDRESS};
use tee_worker::identity::Web3Network;
use tee_worker::vcmp::{Assertion, ErrorDetail, VCMPError};

/// Runs the search, answering from `holds(network_index, date, address)`;
/// returns the outcome and the questions asked.
fn run(
    ids: Vec<(Web3Network, Vec<String>)>,
    holds: impl Fn(usize, &str, &str) -> bool,
) -> (bool, usize, String, Vec<HoldingQuery>) {
    let networks: Vec<Web3Network> = ids.iter().map(|(n, _)| *n).collect();
    let mut search = A4Search::new(ids, b"1".to_vec()).unwrap();
    let mut asked = Vec::new();
    loop {
        match search.next_step() {
            A4Step::Finished(o) => {
                let d = o.from_date().to_string();
                return (o.is_hold, o.from_date_index, d, asked);
            },
            A4Step::Query(q) => {
                let n = networks.iter().position(|x| *x == q.network).unwrap();
                let answer = holds(n, &q.date, &q.address);
                asked.push(q);
                search.record(answer);
            },
        }
    }
}

fn addrs(v: &[&str]) -> Vec<String> {
    v.iter().map(|s| s.to_string()).collect()
}

#[test]
fn holder_since_2018_reports_the_first_half_year_after() {
    let ids = vec![(Web3Network::Litentry, addrs(&["alice"]))];
    let (is_hold, idx, date, _) = run(ids, |_, d, _| d >= "2018-07-01");
    assert!(is_hold);
    assert_eq!(idx, 3);
    assert_eq!(date, "2018-07-01");
}

#[test]
fn no_holder_reports_the_oldest_date() {
    let ids = vec![(Web3Network::Litentry, addrs(&["bob", "carol"]))];
    let (is_hold, idx, date, asked) = run(ids, |_, _, _| false);
    assert!(!is_hold);
    assert_eq!(idx, 0);
    assert_eq!(date, "2017-01-01");
    assert_eq!(asked.len(), 2 * DATE_COUNT);
}

#[test]
fn the_longest_holding_over_networks_wins() {
    let ids = vec![
        (Web3Network::Litentry, addrs(&["sub"])),
        (Web3Network::Ethereum, addrs(&["evm"])),
    ];
    // substrate since 2018-03 (index 3), evm since 2020-03 (index 7)
    let (is_hold, idx, _, _) = run(ids, |n, d, _| if n == 0 { d >= "2018-07-01" } else { d >= "2020-07-01" });
    assert!(is_hold);
    assert_eq!(idx, 3);
}

#[test]
fn holding_since_the_oldest_date_skips_the_other_networks() {
    let ids = vec![
        (Web3Network::Polkadot, addrs(&["a", "b"])),
        (Web3Network::Ethereum, addrs(&["c"])),
    ];
    let (is_hold, idx, _, asked) = run(ids, |_, _, a| a == "a");
    assert!(is_hold);
    assert_eq!(idx, 0);
    // one question per date on the first network, none on the second
    assert_eq!(asked.len(), DATE_COUNT);
    assert!(asked.iter().all(|q| q.network == Web3Network::Polkadot && q.address == "a"));
}

#[test]
fn a_holding_address_ends_the_questions_for_that_date() {
    let ids = vec![(Web3Network::Khala, addrs(&["x", "y", "z"]))];
    let (_, idx, _, asked) = run(ids, |_, d, a| a == "y" && d == "2019-01-01");
    assert_eq!(idx, 4);
    // 13 dates with three addresses, one date with two
    assert_eq!(asked.len(), 13 * 3 + 2);
}

#[test]
fn ethereum_questions_name_the_lit_token() {
    let ids = vec![
        (Web3Network::Ethereum, addrs(&["0xabc"])),
        (Web3Network::Litmus, addrs(&["lit"])),
    ];
    let (_, _, _, asked) = run(ids, |_, _, _| false);
    for q in &asked {
        assert_eq!(q.amount, "1");
        if q.network == Web3Network::Ethereum {
            assert_eq!(q.token.as_deref(), Some(LIT_TOKEN_ADDRESS));
        } else {
            assert_eq!(q.token, None);
        }
    }
    assert_eq!(asked[0].date, "2017-01-01");
    assert_eq!(asked[DATE_COUNT - 1].date, "2023-07-01");
}

#[test]
fn networks_without_addresses_are_not_asked() {
    let ids = vec![(Web3Network::Polygon, Vec::new()), (Web3Network::BSC, addrs(&["q"]))];
    let (is_hold, idx, _, asked) = run(ids, |_, d, _| d >= "2023-01-01");
    assert!(is_hold);
    assert_eq!(idx, 12);
    assert!(asked.iter().all(|q| q.network == Web3Network::BSC));
}

#[test]
fn a_minimum_balance_that_is_not_utf8_is_a_parse_error() {
    let r = A4Search::new(vec![(Web3Network::Litentry, addrs(&["a"]))], vec![0xff, 0xfe]);
    match r {
        Err(VCMPError::RequestVCFailed(Assertion::A4(m), ErrorDetail::ParseError)) => assert_eq!(m, vec![0xff, 0xfe]),
        _ => panic!("expected a parse error"),
    }
}

#[test]
fn a_failed_question_fails_the_request_for_the_amount() {
    let s = A4Search::new(vec![(Web3Network::Litentry, addrs(&["a"]))], b"100".to_vec()).unwrap();
    match s.fail(ErrorDetail::DataProviderError(b"timeout".to_vec())) {
        VCMPError::RequestVCFailed(Assertion::A4(m), ErrorDetail::DataProviderError(t)) => {
            assert_eq!(m, b"100".to_vec());
            assert_eq!(t, b"timeout".to_vec());
        },
        _ => panic!("expected a request error"),
    }
}

#[test]
fn no_identities_finish_at_once() {
    let (is_hold, idx, _, asked) = run(Vec::new(), |_, _, _| true);
    assert!(!is_hold);
    assert_eq!(idx, 0);
    assert!(asked.is_empty());
}
