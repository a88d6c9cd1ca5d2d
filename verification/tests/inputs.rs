use shekozwallet::address::Address;
use shekozwallet::amount::parse_amount;
use shekozwallet::amount::Uint256;
use shekozwallet::config::client_policy;
use shekozwallet::config::ClientPolicy;
use shekozwallet::config::Config;
use shekozwallet::errors::InputValidationError;
use shekozwallet::hexutil::dec_encode;
use shekozwallet::hexutil::hex_decode;
use shekozwallet::hexutil::hex_encode;
use shekozwallet::keys::KeyPath;
use shekozwallet::session::resolve_address_input;
use shekozwallet::suggest::AddressBookAutoComplete;
use shekozwallet::suggest::Erc20AutoComplete;
use shekozwallet::txn::erc20_transfer_calldata;

#[test]
fn hex_encoding_round_trips() {
    let bytes = vec![0xdeu8, 0xad, 0xbe, 0xef, 0x00, 0x7f];
    let text = hex_encode(&bytes);
    assert_eq!(text, b"deadbeef007f".to_vec());
    assert_eq!(hex_decode(&text), Some(bytes.clone()));
    // uppercase digits decode too
    assert_eq!(hex_decode(&b"DEADBEEF007F".to_vec()), Some(bytes));
    // odd length and non-digits are rejected
    assert_eq!(hex_decode(&b"abc".to_vec()), None);
    assert_eq!(hex_decode(&b"zz".to_vec()), None);
}

#[test]
fn decimal_rendering() {
    assert_eq!(dec_encode(0), b"0".to_vec());
    assert_eq!(dec_encode(1234567890), b"1234567890".to_vec());
}

#[test]
fn amounts_parse_in_smallest_unit() {
    assert_eq!(
        parse_amount(&b"1".to_vec(), 18),
        Some(1_000_000_000_000_000_000)
    );
    assert_eq!(
        parse_amount(&b"1.5".to_vec(), 18),
        Some(1_500_000_000_000_000_000)
    );
    assert_eq!(parse_amount(&b"0.000000000000000001".to_vec(), 18), Some(1));
    assert_eq!(parse_amount(&b"12.25".to_vec(), 6), Some(12_250_000));
    assert_eq!(parse_amount(&b"7".to_vec(), 0), Some(7));
}

#[test]
fn bad_amounts_are_rejected() {
    assert_eq!(parse_amount(&b"".to_vec(), 18), None);
    assert_eq!(parse_amount(&b".5".to_vec(), 18), None);
    assert_eq!(parse_amount(&b"1.".to_vec(), 18), None);
    assert_eq!(parse_amount(&b"1.2.3".to_vec(), 18), None);
    assert_eq!(parse_amount(&b"abc".to_vec(), 18), None);
    // more fraction digits than the token has decimals
    assert_eq!(parse_amount(&b"1.0000000000000000001".to_vec(), 18), None);
    assert_eq!(parse_amount(&b"1.5".to_vec(), 0), None);
    // scaled beyond 128 bits
    assert_eq!(
        parse_amount(&b"999999999999999999999999999999999999999".to_vec(), 18),
        None
    );
}

#[test]
fn addresses_parse_and_render() {
    let text = b"0x2791bca1f2de4661ed88a30c99a7a9449aa84174".to_vec();
    let addr = Address::from_text(&text).unwrap();
    assert_eq!(addr.bytes.len(), 20);
    assert_eq!(addr.bytes[0], 0x27);
    assert_eq!(addr.to_text(), text);
    // without the prefix
    let bare = b"2791bca1f2de4661ed88a30c99a7a9449aa84174".to_vec();
    let addr2 = Address::from_text(&bare).unwrap();
    assert!(addr.same_as(&addr2));
    // wrong length or non-hex
    assert!(Address::from_text(&b"0x1234".to_vec()).is_err());
    assert!(
        Address::from_text(&b"0xzz91bca1f2de4661ed88a30c99a7a9449aa84174".to_vec()).is_err()
    );
}

#[test]
fn recipient_input_takes_contact_form() {
    // a plain hex address
    let direct = resolve_address_input(&b"0x2791bca1f2de4661ed88a30c99a7a9449aa84174".to_vec())
        .unwrap();
    assert_eq!(direct.bytes[19], 0x74);
    // a contact suggestion "name 0x..."
    let via_contact = resolve_address_input(
        &b"Burn 0x0000000000000000000000000000000000000000".to_vec(),
    )
    .unwrap();
    assert!(via_contact.bytes.iter().all(|b| *b == 0));
    // junk is rejected, not guessed at
    assert!(matches!(
        resolve_address_input(&b"no address here".to_vec()),
        Err(InputValidationError::BadAddress)
    ));
}

#[test]
fn default_config_matches_shipped_networks() {
    let config = Config::default();
    assert_eq!(config.networks.len(), 3);
    assert_eq!(config.networks[0].name, b"mainnet".to_vec());
    assert_eq!(config.networks[0].network.chain_id, 1);
    assert_eq!(config.networks[1].name, b"polygon".to_vec());
    assert_eq!(config.networks[1].network.chain_id, 137);
    assert_eq!(config.networks[1].network.erc20_tokens.len(), 2);
    assert_eq!(
        config.networks[1].network.erc20_tokens[0].symbol,
        b"USDC".to_vec()
    );
    assert_eq!(config.networks[2].name, b"bsc".to_vec());
    assert_eq!(config.networks[2].network.chain_id, 56);
    assert_eq!(config.contacts.len(), 1);
    assert!(config.contacts[0].address.bytes.iter().all(|b| *b == 0));
    assert!(!config.debug);
}

#[test]
fn suggestions_filter_contacts() {
    let config = Config::default();
    let book = AddressBookAutoComplete::new(config.contacts);
    let hits = book.get_suggestions(&b"burn".to_vec());
    assert_eq!(hits.len(), 1);
    assert_eq!(
        hits[0],
        b"Burn 0x0000000000000000000000000000000000000000".to_vec()
    );
    // matching by address text
    let by_addr = book.get_suggestions(&b"0x0000".to_vec());
    assert_eq!(by_addr.len(), 1);
    let none = book.get_suggestions(&b"zzz".to_vec());
    assert!(none.is_empty());
}

#[test]
fn suggestions_filter_tokens() {
    let config = Config::default();
    let polygon = config
        .networks
        .into_iter()
        .find(|n| n.name == b"polygon".to_vec())
        .unwrap();
    let tokens = Erc20AutoComplete::new(polygon.network.erc20_tokens);
    let hits = tokens.get_suggestions(&b"usd".to_vec());
    assert_eq!(hits.len(), 2);
    let busd = tokens.get_suggestions(&b"binance-peg".to_vec());
    assert_eq!(busd.len(), 1);
}

#[test]
fn transfer_calldata_layout() {
    let to = Address::from_text(&b"0x2791bca1f2de4661ed88a30c99a7a9449aa84174".to_vec()).unwrap();
    let amount = Uint256::from_u128(1_000_000);
    let data = erc20_transfer_calldata(&to, &amount);
    assert_eq!(data.len(), 68);
    assert_eq!(&data[0..4], &[0xa9, 0x05, 0x9c, 0xbb]);
    assert!(data[4..16].iter().all(|b| *b == 0));
    assert_eq!(&data[16..36], to.bytes.as_slice());
    assert_eq!(&data[36..68], amount.bytes.as_slice());
    // the amount sits big-endian in the last four bytes
    assert_eq!(data[67], (1_000_000u32 & 0xff) as u8);
}

#[test]
fn client_policy_prefers_proxy() {
    let proxy = Some(b"socks5h://127.0.0.1:9050".to_vec());
    let localhost = Some(b"localhost".to_vec());
    let remote = Some(b"polygon-rpc.com".to_vec());
    assert_eq!(
        client_policy(&proxy, &remote),
        ClientPolicy::ProxiedHttpsOnly
    );
    assert_eq!(client_policy(&None, &localhost), ClientPolicy::PlainLocal);
    assert_eq!(client_policy(&None, &remote), ClientPolicy::HttpsOnly);
    assert_eq!(client_policy(&None, &None), ClientPolicy::HttpsOnly);
}

#[test]
fn derivation_path_text() {
    let path = KeyPath { index: 2 };
    assert_eq!(path.text(), b"m/44'/60'/0'/0/2".to_vec());
    let path9 = KeyPath { index: 19 };
    assert_eq!(path9.text(), b"m/44'/60'/0'/0/19".to_vec());
}
