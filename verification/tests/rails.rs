use faucet::auth::{
    authenticate, is_banned, issue_claims, parse_list, primary_email, AuthError, GithubEmail,
    TokenClaims,
};
use faucet::bolt11::Bolt11Request;
use faucet::channel::{
    channel_spend, funding_txid, needs_connect, open_channel_order, ChannelError, ChannelRequest,
    FundingTxid,
};
use faucet::lightning::{
    accept_served_invoice, check_admission, check_invoice, check_min_sendable, pay_invoice,
    pay_invoice_read, payment_outcome, whole_sats, Invoice, LightningError,
};
use faucet::lnurlw::{check_withdrawal, withdrawal_offer, LnurlWithdrawParams, WithdrawError};
use faucet::nostr_dms::{
    check_dm_invoice, command, dm_onchain_amount, payments_for, relays, zap_amount, Command,
    DmError,
};
use faucet::onchain::{network_from_name, pay_onchain, Network, OnchainError};
use faucet::payjoin::{request_bip21, Bip21Request};

const INVOICE_250K_SATS: &str = "lnbc2500u1pvjluezsp5zyg3zyg3zyg3zyg3zyg3zyg3zyg3zyg3zyg3zyg3zyg3zyg3zygspp5qqqsyqcyq5rqwzqfqqqsyqcyq5rqwzqfqqqsyqcyq5rqwzqfqypqdq5xysxxatsyp3k7enxv4jsxqzpu9qrsgquk0rl77nj30yxdy8j9vdx85fkpmdla2087ne0xh8nhedh8w27kyke0lp53ut353s06fv3qfegext0eh0ymjpf39tuven09sam30g4vgpfna3rh";
const INVOICE_NO_AMOUNT: &str = "lnbc1pvjluezsp5zyg3zyg3zyg3zyg3zyg3zyg3zyg3zyg3zyg3zyg3zyg3zyg3zygspp5qqqsyqcyq5rqwzqfqqqsyqcyq5rqwzqfqqqsyqcyq5rqwzqfqypqdpl2pkx2ctnv5sxxmmwwd5kgetjypeh2ursdae8g6twvus8g6rfwvs8qun0dfjkxaq9qrsgq357wnc5r2ueh7ck6q93dj32dlqnls087fxdwk8qakdyafkq3yap9us6v52vjjsrvywa6rt52cm9r9zqt8r2t7mlcwspyetp5h2tztugp9lfyql";
const INVOICE_2M_SATS: &str = "lnbc20m1pvjluezsp5zyg3zyg3zyg3zyg3zyg3zyg3zyg3zyg3zyg3zyg3zyg3zyg3zygspp5qqqsyqcyq5rqwzqfqqqsyqcyq5rqwzqfqqqsyqcyq5rqwzqfqypqhp58yjmdan79s6qqdhdzgynm4zwqd5d7xmw5fk98klysy043l2ahrqs9qrsgq7ea976txfraylvgzuxs8kgcw23ezlrszfnh8r6qtfpr6cxga50aj6txm9rxrydzd06dfeawfk6swupvz4erwnyutnjq7x39ymw6j38gp7ynn44";

const TESTNET_ADDRESS: &str = "tb1qw508d6qejxtdg4y5r3zarvary0c5xw7kxpjzsx";
const MAINNET_ADDRESS: &str = "bc1qw508d6qejxtdg4y5r3zarvary0c5xw7kv8f3t4";

fn request(capacity: i64, push_amount: i64, pubkey: &str, host: Option<&str>) -> ChannelRequest {
    ChannelRequest {
        capacity,
        push_amount,
        pubkey: pubkey.to_string(),
        host: host.map(|h| h.to_string()),
    }
}

fn strings(items: &[&str]) -> Vec<String> {
    items.iter().map(|s| s.to_string()).collect()
}

#[test]
fn channel_request_passes() {
    let order = open_channel_order(false, &request(1_000_000, 500, "02aBff", None)).ok().unwrap();
    assert_eq!(order.node_pubkey, vec![0x02, 0xab, 0xff]);
    assert_eq!(order.local_funding_amount, 1_000_000);
    assert_eq!(order.push_sat, 500);
    assert_eq!(channel_spend(&order), 1_000_000);
}

#[test]
fn channel_request_faults_in_order() {
    let fault = |rejected: bool, r: ChannelRequest| open_channel_order(rejected, &r).err().unwrap();
    assert_eq!(fault(true, request(2_000_000, -1, "zz", None)), ChannelError::TooManyPayments);
    assert_eq!(fault(false, request(1_000_001, -1, "zz", None)), ChannelError::CapacityTooLarge);
    assert_eq!(fault(false, request(10, -1, "zz", None)), ChannelError::NegativePush);
    assert_eq!(fault(false, request(10, 11, "zz", None)), ChannelError::PushExceedsCapacity);
    assert_eq!(fault(false, request(-5, 0, "00", None)), ChannelError::PushExceedsCapacity);
    assert_eq!(fault(false, request(10, 10, "zz", None)), ChannelError::InvalidPubkey);
    assert_eq!(fault(false, request(10, 10, "abc", None)), ChannelError::InvalidPubkey);
    assert_eq!(fault(false, request(10, 10, "é0", None)), ChannelError::InvalidPubkey);
}

#[test]
fn channel_error_messages() {
    assert_eq!(ChannelError::TooManyPayments.message(), "Too many payments");
    assert_eq!(ChannelError::CapacityTooLarge.message(), "max capacity is 1,000,000");
    assert_eq!(ChannelError::NegativePush.message(), "push_amount must be positive");
    assert_eq!(
        ChannelError::PushExceedsCapacity.message(),
        "push_amount must be less than or equal to capacity"
    );
    assert_eq!(ChannelError::NoFundingTxid.message(), "failed to open channel");
}

#[test]
fn channel_connects_only_to_unknown_peers_with_a_host() {
    let peers = strings(&["aa", "bb"]);
    assert!(needs_connect(&request(1, 0, "cc", Some("host:9735")), &peers));
    assert!(!needs_connect(&request(1, 0, "bb", Some("host:9735")), &peers));
    assert!(!needs_connect(&request(1, 0, "cc", None), &peers));
    assert!(needs_connect(&request(1, 0, "cc", Some("h")), &Vec::new()));
}

#[test]
fn funding_txid_is_reversed_hex() {
    assert_eq!(funding_txid(Some(FundingTxid::Bytes(vec![1, 2, 3, 15, 16]))).ok().unwrap(), "100f030201");
    assert_eq!(funding_txid(Some(FundingTxid::Str("0102A0".to_string()))).ok().unwrap(), "a00201");
    assert_eq!(funding_txid(Some(FundingTxid::Bytes(Vec::new()))).ok().unwrap(), "");
    assert_eq!(
        funding_txid(Some(FundingTxid::Str("xyz".to_string()))).err().unwrap(),
        ChannelError::InvalidFundingTxid
    );
    assert_eq!(funding_txid(None).err().unwrap(), ChannelError::NoFundingTxid);
}

#[test]
fn invoice_amount_is_checked_in_whole_satoshis() {
    assert_eq!(check_invoice(false, Some(1_000_000_999)), Ok(1_000_000));
    assert_eq!(check_invoice(false, Some(1_000_001_000)), Err(LightningError::AmountTooLarge));
    assert_eq!(check_invoice(false, Some(999)), Ok(0));
    assert_eq!(check_invoice(false, None), Err(LightningError::MissingAmount));
    assert_eq!(check_invoice(true, Some(5)), Err(LightningError::TooManyPayments));
    assert_eq!(check_invoice(true, None), Err(LightningError::TooManyPayments));
}

#[test]
fn invoice_is_read_and_checked() {
    let (sats, request) = pay_invoice(INVOICE_250K_SATS, false).ok().unwrap();
    assert_eq!(sats, 250_000);
    assert_eq!(request, INVOICE_250K_SATS);
    assert_eq!(pay_invoice(INVOICE_250K_SATS, true).err().unwrap(), LightningError::TooManyPayments);
    assert_eq!(pay_invoice(INVOICE_NO_AMOUNT, false).err().unwrap(), LightningError::MissingAmount);
    assert_eq!(pay_invoice(INVOICE_2M_SATS, false).err().unwrap(), LightningError::AmountTooLarge);
    assert_eq!(pay_invoice("lnbc-nothing", false).err().unwrap(), LightningError::InvalidBolt11);
    assert_eq!(pay_invoice("lnbc-nothing", true).err().unwrap(), LightningError::TooManyPayments);
    assert_eq!(pay_invoice(INVOICE_2M_SATS, true).err().unwrap(), LightningError::TooManyPayments);
}

#[test]
fn invoice_as_read_is_checked_after_admission() {
    let invoice = |amount_msat: Option<u64>| {
        Some(Invoice { amount_msat, payment_request: "lnbc-request".to_string() })
    };
    assert_eq!(
        pay_invoice_read(false, invoice(Some(2_500))).ok().unwrap(),
        (2, "lnbc-request".to_string())
    );
    assert_eq!(pay_invoice_read(true, invoice(Some(2_500))).err().unwrap(), LightningError::TooManyPayments);
    assert_eq!(pay_invoice_read(true, None).err().unwrap(), LightningError::TooManyPayments);
    assert_eq!(pay_invoice_read(false, None).err().unwrap(), LightningError::InvalidBolt11);
    assert_eq!(pay_invoice_read(false, invoice(None)).err().unwrap(), LightningError::MissingAmount);
    assert_eq!(
        pay_invoice_read(false, invoice(Some(1_000_001_000))).err().unwrap(),
        LightningError::AmountTooLarge
    );
}

#[test]
fn admission_comes_before_the_request_is_read() {
    assert_eq!(check_admission(true), Err(LightningError::TooManyPayments));
    assert_eq!(check_admission(false), Ok(()));
    assert_eq!(whole_sats(0), 0);
    assert_eq!(whole_sats(999), 0);
    assert_eq!(whole_sats(1_000), 1);
    assert_eq!(whole_sats(1_000_000_999), 1_000_000);
    assert_eq!(whole_sats(u64::MAX), 18_446_744_073_709_551);
}

#[test]
fn served_invoice_is_read() {
    assert_eq!(accept_served_invoice(INVOICE_2M_SATS).ok().unwrap(), INVOICE_2M_SATS);
    assert_eq!(accept_served_invoice("").err().unwrap(), LightningError::InvalidInvoice);
}

#[test]
fn min_sendable_is_held_to_the_cap() {
    assert_eq!(check_min_sendable(false, 1_000_000), Ok(1_000_000));
    assert_eq!(check_min_sendable(false, 1_000_001), Err(LightningError::AmountTooLarge));
    assert_eq!(check_min_sendable(true, 1), Err(LightningError::TooManyPayments));
}

#[test]
fn payment_outcome_is_hex_of_preimage() {
    assert_eq!(payment_outcome("", &vec![1, 2, 3, 15, 16]).ok().unwrap(), "0102030f10");
    assert_eq!(payment_outcome("", &vec![0xde, 0xad, 0xbe, 0xef, 0x00, 0xff]).ok().unwrap(), "deadbeef00ff");
    assert_eq!(payment_outcome("", &Vec::new()).ok().unwrap(), "");
    assert_eq!(payment_outcome("no route", &vec![1]).err().unwrap(), LightningError::PaymentFailed);
}

#[test]
fn lightning_error_messages() {
    assert_eq!(LightningError::MissingAmount.message(), "bolt11 invoice should have an amount");
    assert_eq!(LightningError::InvalidBolt11.message(), "invalid bolt11");
    assert_eq!(LightningError::InvalidInvoice.message(), "invalid lnurl");
}

#[test]
fn onchain_order_for_a_good_request() {
    let order = pay_onchain(TESTNET_ADDRESS, Network::Signet, false, None, Some(1_000_000)).ok().unwrap();
    assert_eq!(order.addr, TESTNET_ADDRESS);
    assert_eq!(order.amount, 1_000_000);
    assert!(order.spend_unconfirmed);
    assert_eq!(order.sat_per_vbyte, 1);
}

#[test]
fn onchain_address_is_written_in_canonical_form() {
    let upper = TESTNET_ADDRESS.to_uppercase();
    let order = pay_onchain(&upper, Network::Testnet, false, Some(5), None).ok().unwrap();
    assert_eq!(order.addr, TESTNET_ADDRESS);
    assert_eq!(order.amount, 5);
}

#[test]
fn onchain_amount_of_the_address_text_comes_first() {
    let order = pay_onchain(TESTNET_ADDRESS, Network::Testnet, false, Some(7), Some(9)).ok().unwrap();
    assert_eq!(order.amount, 7);
}

#[test]
fn onchain_faults_in_order() {
    let fault = |dest: &str, net: Network, rejected: bool, uri: Option<u64>, sats: Option<u64>| {
        pay_onchain(dest, net, rejected, uri, sats).err().unwrap()
    };
    assert_eq!(fault("nonsense", Network::Signet, true, None, None), OnchainError::InvalidAddress);
    assert_eq!(fault(MAINNET_ADDRESS, Network::Signet, true, None, None), OnchainError::TooManyPayments);
    assert_eq!(fault(TESTNET_ADDRESS, Network::Signet, true, None, Some(1)), OnchainError::TooManyPayments);
    assert_eq!(fault(MAINNET_ADDRESS, Network::Signet, false, None, None), OnchainError::WrongNetwork);
    assert_eq!(fault(TESTNET_ADDRESS, Network::Bitcoin, false, None, Some(1)), OnchainError::WrongNetwork);
    assert_eq!(fault(TESTNET_ADDRESS, Network::Regtest, false, None, Some(1)), OnchainError::WrongNetwork);
    assert_eq!(fault(TESTNET_ADDRESS, Network::Signet, false, None, None), OnchainError::InvalidAmount);
    assert_eq!(fault(TESTNET_ADDRESS, Network::Signet, false, None, Some(1_000_001)), OnchainError::AmountTooLarge);
    assert_eq!(fault(TESTNET_ADDRESS, Network::Signet, false, Some(1_000_001), Some(1)), OnchainError::AmountTooLarge);
}

#[test]
fn onchain_error_messages() {
    assert_eq!(OnchainError::InvalidAddress.message(), "invalid address");
    assert_eq!(OnchainError::InvalidAmount.message(), "invalid amount");
    assert_eq!(OnchainError::AmountTooLarge.message(), "max amount is 1,000,000");
    assert_eq!(OnchainError::TooManyPayments.message(), "Too many payments");
}

#[test]
fn network_names() {
    assert_eq!(network_from_name(&"signet".to_string()), Some(Network::Signet));
    assert_eq!(network_from_name(&"testnet".to_string()), Some(Network::Testnet));
    assert_eq!(network_from_name(&"regtest".to_string()), Some(Network::Regtest));
    assert_eq!(network_from_name(&"bitcoin".to_string()), None);
    assert_eq!(network_from_name(&"Signet".to_string()), None);
}

#[test]
fn bolt11_value_is_the_amount_or_zero() {
    assert_eq!(Bolt11Request { amount_sats: None }.value(), 0);
    assert_eq!(Bolt11Request { amount_sats: Some(21) }.value(), 21);
    assert_eq!(Bolt11Request { amount_sats: Some(i64::MAX as u64) }.value(), i64::MAX);
    assert_eq!(Bolt11Request { amount_sats: Some(1 << 63) }.value(), i64::MIN);
    assert_eq!(Bolt11Request { amount_sats: Some(u64::MAX) }.value(), -1);
}

#[test]
fn payment_link_is_assembled() {
    assert_eq!(
        request_bip21("bitcoin:TB1Q", "0.001", "lnbc1", "https://faucet"),
        "bitcoin:TB1Q?amount=0.001&invoice=lnbc1&pj=https://faucet/api/payjoin"
    );
    assert_eq!(Bip21Request { amount: 100_000 }.sats(), 100_000);
    assert_eq!(Bip21Request { amount: -1 }.sats(), u64::MAX);
    assert_eq!(Bip21Request { amount: i64::MIN }.sats(), 1 << 63);
}

#[test]
fn withdrawal_offer_and_callback() {
    let offer = withdrawal_offer();
    assert_eq!(offer.default_description, "Mutinynet Faucet");
    assert_eq!(offer.callback, "https://faucet.mutinynet.com/api/lnurlw/callback");
    assert_eq!(offer.k1, "k1");
    assert_eq!(offer.max_withdrawable, 1_000_000_000);
    assert_eq!(offer.min_withdrawable, None);
    let params = |k1: &str| LnurlWithdrawParams { k1: k1.to_string(), pr: "lnbc".to_string() };
    assert_eq!(check_withdrawal(&params("k1"), false), Ok(()));
    assert_eq!(check_withdrawal(&params("k1"), true), Err(WithdrawError::TooManyPayments));
    assert_eq!(check_withdrawal(&params("K1"), false), Err(WithdrawError::IncorrectK1));
    assert_eq!(check_withdrawal(&params(""), true), Err(WithdrawError::IncorrectK1));
    assert_eq!(WithdrawError::TooManyPayments.reason(), "Incorrect k1");
}

#[test]
fn direct_message_commands() {
    assert_eq!(command("zap me"), Command::Zap);
    assert_eq!(command("ZAP Me"), Command::Zap);
    assert_eq!(command("Spam me"), Command::Spam);
    assert_eq!(command("zap me "), Command::Other);
    assert_eq!(command(""), Command::Other);
    assert_eq!(payments_for(Command::Zap), 1);
    assert_eq!(payments_for(Command::Spam), 25);
    assert_eq!(payments_for(Command::Other), 0);
    assert_eq!(relays(), vec!["wss://relay.primal.net", "wss://relay.damus.io"]);
}

#[test]
fn direct_message_amounts() {
    assert_eq!(zap_amount(500_000), Ok(1_000_000));
    assert_eq!(zap_amount(500_001), Err(DmError::AmountTooLarge));
    assert_eq!(zap_amount(u64::MAX), Err(DmError::AmountTooLarge));
    assert_eq!(check_dm_invoice(Some(999_999_999)), Ok(()));
    assert_eq!(check_dm_invoice(Some(1_000_000_000)), Err(DmError::InvalidInvoiceAmount));
    assert_eq!(check_dm_invoice(None), Err(DmError::InvalidInvoiceAmount));
    assert_eq!(dm_onchain_amount(None, false), Ok(100_000));
    assert_eq!(dm_onchain_amount(Some(1_000_000), false), Ok(1_000_000));
    assert_eq!(dm_onchain_amount(Some(1_000_001), true), Err(DmError::AmountTooLarge));
    assert_eq!(dm_onchain_amount(None, true), Err(DmError::TooManyPayments));
    assert_eq!(DmError::AmountTooLarge.message(), "Amount exceeds max send amount");
}

#[test]
fn banned_by_domain_user_or_not_at_all() {
    let none: Vec<String> = Vec::new();
    let domains = strings(&["spam.example", "bad.org"]);
    let users = strings(&["eve@good.org"]);
    let white = strings(&["friend@spam.example"]);
    let banned = |email: &str| is_banned(&email.to_string(), &white, &domains, &users);
    assert!(banned("bob@spam.example"));
    assert!(banned("bob@SPAM.Example"));
    assert!(banned("a@b@bad.org"));
    assert!(banned("bad.org"));
    assert!(banned("eve@good.org"));
    assert!(!banned("Eve@good.org"));
    assert!(!banned("friend@spam.example"));
    assert!(!banned("bob@good.org"));
    assert!(!banned("bob@spam.example@good.org"));
    assert!(!banned("bob@"));
    assert!(!is_banned(&"bob@spam.example".to_string(), &none, &none, &none));
    assert!(is_banned(&"bob@".to_string(), &none, &strings(&[""]), &none));
}

#[test]
fn token_check_in_order() {
    let none: Vec<String> = Vec::new();
    let domains = strings(&["bad.org"]);
    let claims = |sub: &str, exp: usize| Some(TokenClaims { sub: sub.to_string(), exp, iat: 0 });
    let check = |token: &str, c: Option<TokenClaims>, now: usize| {
        authenticate(token, c, now, &none, &domains, &none).map(|u| u.username)
    };
    assert_eq!(check("", claims("a@b.c", 10), 5), Err(AuthError::MissingToken));
    assert_eq!(check("t", None, 5), Err(AuthError::InvalidToken));
    assert_eq!(check("t", claims("a@b.c", 4), 5), Err(AuthError::TokenExpired));
    assert_eq!(check("t", claims("a@bad.org", 10), 5), Err(AuthError::TokenExpired));
    assert_eq!(check("t", claims("a@b.c", 5), 5), Ok("a@b.c".to_string()));
    assert_eq!(AuthError::InvalidToken.message(), "Invalid token");
    assert_eq!(AuthError::MissingToken.message(), "Missing token");
    assert_eq!(AuthError::TokenExpired.message(), "Token expired");
    assert_eq!(AuthError::TokenExpired.status(), 401);
}

#[test]
fn primary_verified_email_and_claims() {
    let mail = |email: &str, primary: bool, verified: bool| GithubEmail {
        email: email.to_string(),
        primary,
        verified,
    };
    let emails = vec![
        mail("a", true, false),
        mail("b", false, true),
        mail("c", true, true),
        mail("d", true, true),
    ];
    assert_eq!(primary_email(&emails), Some(2));
    assert_eq!(primary_email(&emails[..2].iter().map(|e| mail(&e.email, e.primary, e.verified)).collect()), None);
    assert_eq!(primary_email(&Vec::new()), None);
    let claims = issue_claims("me@x.y".to_string(), 1_700_000_000);
    assert_eq!(claims.sub, "me@x.y");
    assert_eq!(claims.iat, 1_700_000_000);
    assert_eq!(claims.exp, 1_700_086_400);
}

#[test]
fn list_file_is_read_line_by_line() {
    assert_eq!(parse_list("a\n  b  \n\n\r\nc d\r\n"), strings(&["a", "b", "c d"]));
    assert_eq!(parse_list("one"), strings(&["one"]));
    assert_eq!(parse_list("\tx@y.z \n"), strings(&["x@y.z"]));
    assert_eq!(parse_list("a\rb\n"), strings(&["a\rb"]));
    assert_eq!(parse_list("\u{a0}é\u{2003}\nz"), strings(&["é", "z"]));
    assert_eq!(parse_list(""), Vec::<String>::new());
    assert_eq!(parse_list(" \n\n \t\n"), Vec::<String>::new());
}

fn has_white_space_property(c: char) -> bool {
    matches!(
        c as u32,
        0x09..=0x0d
            | 0x20
            | 0x85
            | 0xa0
            | 0x1680
            | 0x2000..=0x200a
            | 0x2028
            | 0x2029
            | 0x202f
            | 0x205f
            | 0x3000
    )
}

#[test]
fn every_character_is_white_space_or_an_entry() {
    let mut spaces = 0;
    for n in 0..=0x10ffff_u32 {
        if let Some(c) = char::from_u32(n) {
            let text = c.to_string();
            let list = parse_list(&text);
            if has_white_space_property(c) {
                spaces += 1;
                assert!(list.is_empty(), "U+{n:04X} should be white space");
            } else {
                assert_eq!(list, vec![text], "U+{n:04X} should be an entry");
            }
        }
    }
    assert_eq!(spaces, 25);
}
