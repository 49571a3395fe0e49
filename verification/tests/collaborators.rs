use aes_gcm::aead::array::Array;
use aes_gcm::aead::Aead;
use aes_gcm::{Aes256Gcm, KeyInit};
use aoe2_archiver::aoe2::{
    companion_file_wanted, holds_companion_word, patch_launcher_config, COMPANION_SEARCH,
    LAUNCHER_SEARCH,
};
use aoe2_archiver::goldberg::{
    carry_out, classify, plan_entry, prepare_entry, EntryPlan, OutputFile, SealError, SUBDIRS,
};
use aoe2_archiver::release::{
    asset_download_url, choose_asset, choose_download_url, gh_latest_release_dl_url,
    latest_release_api_url, matches_all, read_asset, read_assets, read_text_member, ReleaseAsset,
    ReleaseError,
};
use aoe2_archiver::steam::{install_location, uninstall_keys, STEAM_AOE2_APP};
use aoe2_archiver::text::same_text;

const RELEASE: &str = r#"{
  "tag_name": "v1.2.3",
  "assets": [
    {"name": "launcher_1.2.3_full_linux_x86-64.tar.gz", "browser_download_url": "https://dl.invalid/linux"},
    {"name": 17, "browser_download_url": "https://dl.invalid/number"},
    {"browser_download_url": "https://dl.invalid/nameless"},
    {"name": "launcher_1.2.3_full_win_x86-64.zip"},
    {"name": "launcher_1.2.3_full_win_x86-64.zip", "browser_download_url": null},
    {"name": "launcher_1.2.3_full_win_x86-64.zip", "browser_download_url": "https://dl.invalid/win"},
    {"name": "launcher_1.2.3_full_win_x86-64.zip", "browser_download_url": "https://dl.invalid/second"}
  ]
}"#;

fn key() -> Vec<u8> {
    (0u8..32).collect()
}

#[test]
fn first_asset_that_matches_every_word_and_has_an_address_is_chosen() {
    assert_eq!(
        gh_latest_release_dl_url(RELEASE, &LAUNCHER_SEARCH),
        Ok(Some(String::from("https://dl.invalid/win")))
    );
    assert_eq!(
        gh_latest_release_dl_url(RELEASE, &COMPANION_SEARCH),
        Ok(Some(String::from("https://dl.invalid/linux")))
    );
    assert_eq!(
        gh_latest_release_dl_url(RELEASE, &[]),
        Ok(Some(String::from("https://dl.invalid/linux")))
    );
}

#[test]
fn no_matching_asset_is_not_an_error() {
    assert_eq!(gh_latest_release_dl_url(RELEASE, &["_full_", "macos"]), Ok(None));
    assert_eq!(gh_latest_release_dl_url(r#"{"assets": []}"#, &["_full_"]), Ok(None));
}

#[test]
fn a_description_without_an_asset_list_is_refused() {
    assert_eq!(
        gh_latest_release_dl_url(r#"{"message": "rate limited"}"#, &["_full_"]),
        Err(ReleaseError::MissingAssets)
    );
    assert_eq!(gh_latest_release_dl_url("[1, 2]", &["_full_"]), Err(ReleaseError::MissingAssets));
    assert_eq!(
        gh_latest_release_dl_url(r#"{"assets": {"name": "x"}}"#, &["_full_"]),
        Err(ReleaseError::AssetsNotArray)
    );
    assert_eq!(
        ReleaseError::MissingAssets.message(),
        "Unexpected response from github: expected assets field."
    );
    assert_eq!(
        ReleaseError::AssetsNotArray.message(),
        "Expected github assets to be an array, but it was not."
    );
}

#[test]
fn text_that_is_not_json_is_refused_with_the_parsers_message() {
    let refused = gh_latest_release_dl_url("<html>", &["_full_"]).unwrap_err();
    match &refused {
        ReleaseError::InvalidJson(reason) => {
            assert!(!reason.is_empty());
            assert_eq!(&refused.message(), reason);
        }
        other => panic!("unexpected error {other:?}"),
    }
    assert!(matches!(gh_latest_release_dl_url("", &[]), Err(ReleaseError::InvalidJson(_))));
    assert!(matches!(
        gh_latest_release_dl_url(r#"{"assets": []} trailing"#, &[]),
        Err(ReleaseError::InvalidJson(_))
    ));
}

#[test]
fn choice_from_a_parsed_description() {
    let release: serde_json::Value = serde_json::from_str(RELEASE).unwrap();
    assert_eq!(
        choose_download_url(&release, &["win"]),
        Ok(Some(String::from("https://dl.invalid/win")))
    );
    let assets = read_assets(&release).unwrap();
    assert_eq!(assets.len(), 7);
    assert_eq!(assets[0], asset(Some("launcher_1.2.3_full_linux_x86-64.tar.gz"), Some("https://dl.invalid/linux")));
    assert_eq!(assets[1], asset(None, Some("https://dl.invalid/number")));
    assert_eq!(assets[2], asset(None, Some("https://dl.invalid/nameless")));
    assert_eq!(assets[3], asset(Some("launcher_1.2.3_full_win_x86-64.zip"), None));
    assert_eq!(assets[4], asset(Some("launcher_1.2.3_full_win_x86-64.zip"), None));
    assert_eq!(read_asset(&release), asset(None, None));
    assert_eq!(read_text_member(&release, "tag_name"), Some(String::from("v1.2.3")));
    assert_eq!(read_text_member(&release, "assets"), None);
    assert_eq!(read_text_member(&release, "missing"), None);
    assert_eq!(read_assets(&serde_json::Value::Null), Err(ReleaseError::MissingAssets));
}

fn asset(name: Option<&str>, url: Option<&str>) -> ReleaseAsset {
    ReleaseAsset { name: name.map(String::from), url: url.map(String::from) }
}

#[test]
fn choice_among_assets_given_as_plain_values() {
    let assets = vec![
        asset(Some("tool_full_linux.tar.gz"), Some("u0")),
        asset(None, Some("u1")),
        asset(Some("tool_full_win_x86-64.zip"), None),
        asset(Some("tool_lite_win_x86-64.zip"), Some("u3")),
        asset(Some("tool_full_win_x86-64.zip"), Some("u4")),
        asset(Some("tool_full_win_x86-64.zip"), Some("u5")),
    ];
    assert_eq!(choose_asset(&assets, &["_full_", "win_x86-64"]), Some(String::from("u4")));
    assert_eq!(choose_asset(&assets, &["_full_"]), Some(String::from("u0")));
    assert_eq!(choose_asset(&assets, &["win"]), Some(String::from("u3")));
    assert_eq!(choose_asset(&assets, &[]), Some(String::from("u0")));
    assert_eq!(choose_asset(&assets, &["macos"]), None);
    assert_eq!(choose_asset(&vec![asset(None, Some("u1")), asset(Some("n"), None)], &[]), None);
    assert_eq!(choose_asset(&vec![], &[]), None);
    assert_eq!(asset_download_url(&assets[0], &["linux"]), Some(String::from("u0")));
    assert_eq!(asset_download_url(&assets[0], &["win"]), None);
    assert_eq!(asset_download_url(&assets[1], &[]), None);
    assert_eq!(asset_download_url(&assets[2], &[]), None);
}

#[test]
fn every_word_must_occur_in_the_name() {
    assert!(matches_all("a_full_win_x86-64.zip", &["_full_", "win_x86-64"]));
    assert!(!matches_all("a_full_win_arm64.zip", &["_full_", "win_x86-64"]));
    assert!(!matches_all("a_win_x86-64.zip", &["_full_", "win_x86-64"]));
    assert!(matches_all("anything", &[]));
    assert!(matches_all("abc", &[""]));
    assert!(!matches_all("", &["a"]));
    assert!(!matches_all("_FULL_", &["_full_"]));
}

#[test]
fn address_of_the_latest_release() {
    assert_eq!(
        latest_release_api_url("luskaner", "ageLANServer"),
        "https://api.github.com/repos/luskaner/ageLANServer/releases/latest"
    );
    assert_eq!(latest_release_api_url("", ""), "https://api.github.com/repos///releases/latest");
}

#[test]
fn archive_files_outside_the_experimental_directory_are_left_out() {
    assert_eq!(plan_entry("release/steamclient.dll"), EntryPlan::Skip);
    assert_eq!(plan_entry("steamclient.dll"), EntryPlan::Skip);
    assert_eq!(plan_entry(""), EntryPlan::Skip);
    assert_eq!(plan_entry("x/release/steamclient_experimental/steamclient.dll"), EntryPlan::Skip);
    assert_eq!(plan_entry("Release/steamclient_experimental/steamclient.dll"), EntryPlan::Skip);
}

#[test]
fn wanted_files_keep_their_case_and_lose_the_directory() {
    assert_eq!(
        plan_entry("release/steamclient_experimental/steamclient.dll"),
        EntryPlan::Keep(String::from("steamclient.dll"))
    );
    assert_eq!(
        plan_entry("release/steamclient_experimental/SteamClient64.DLL"),
        EntryPlan::Keep(String::from("SteamClient64.DLL"))
    );
    assert_eq!(
        plan_entry("release/steamclient_experimental/ColdClientLoader.ini"),
        EntryPlan::Keep(String::from("ColdClientLoader.ini"))
    );
    assert_eq!(plan_entry("release/steamclient_experimental/readme.txt"), EntryPlan::Skip);
    assert_eq!(plan_entry("release/steamclient_experimental/"), EntryPlan::Skip);
    assert_eq!(
        plan_entry("release/steamclient_experimental/extra/steamclient.dll"),
        EntryPlan::Skip
    );
    assert_eq!(
        plan_entry(
            "release/steamclient_experimental/release/steamclient_experimental/steamclient.dll"
        ),
        EntryPlan::Keep(String::from("steamclient.dll"))
    );
}

#[test]
fn the_loader_is_sealed_under_its_own_name() {
    assert_eq!(
        plan_entry("release/steamclient_experimental/steamclient_loader_x64.exe"),
        EntryPlan::Seal(String::from("steamclient_loader_x64.encrypted"))
    );
    assert_eq!(
        plan_entry("release/steamclient_experimental/SteamClient_Loader_x64.EXE"),
        EntryPlan::Seal(String::from("steamclient_loader_x64.encrypted"))
    );
}

#[test]
fn sealed_contents_open_again_under_the_same_key() {
    let plain = b"MZ loader bytes".to_vec();
    let file = prepare_entry(
        "release/steamclient_experimental/steamclient_loader_x64.exe",
        plain.clone(),
        &key(),
    )
    .unwrap()
    .unwrap();
    assert_eq!(file.name, "steamclient_loader_x64.encrypted");
    assert_eq!(file.contents.len(), plain.len() + 16);
    assert_ne!(&file.contents[..plain.len()], &plain[..]);
    let cipher = Aes256Gcm::new(&Array::try_from(&key()[..]).unwrap());
    let nonce = Array::try_from([0u8; 12]).unwrap();
    assert_eq!(cipher.decrypt(&nonce, &file.contents[..]).unwrap(), plain);
    let again = carry_out(EntryPlan::Seal(String::from("n")), plain.clone(), &key()).unwrap().unwrap();
    assert_eq!(again.contents, file.contents);
}

#[test]
fn sealing_needs_a_key_of_thirty_two_bytes() {
    assert_eq!(carry_out(EntryPlan::Seal(String::from("n")), vec![1, 2, 3], &[0u8; 31]), Err(SealError));
    assert_eq!(carry_out(EntryPlan::Seal(String::from("n")), vec![1, 2, 3], &[]), Err(SealError));
    assert!(carry_out(EntryPlan::Seal(String::from("n")), vec![], &[0u8; 32]).is_ok());
}

#[test]
fn kept_and_skipped_files_need_no_key() {
    assert_eq!(
        prepare_entry("release/steamclient_experimental/steamclient.dll", vec![9, 8], &[]),
        Ok(Some(OutputFile { name: String::from("steamclient.dll"), contents: vec![9, 8] }))
    );
    assert_eq!(prepare_entry("release/other.dll", vec![9, 8], &[]), Ok(None));
    assert_eq!(carry_out(EntryPlan::Skip, vec![1], &key()), Ok(None));
    assert_eq!(SUBDIRS, ["dlls", "steam_settings", "saves"]);
}

#[test]
fn companion_files_are_known_by_their_names() {
    assert!(companion_file_wanted("ageLANServerLauncherCompanion_Age2_1.0.0.0.dll"));
    assert!(companion_file_wanted("ageLANServerLauncherCompanion_AgeFakeHost_1.0.0.0.dll"));
    assert!(companion_file_wanted("dir/FAKEHOST.dll"));
    assert!(!companion_file_wanted("ageLANServerLauncherCompanion_Age4_1.0.0.0.dll"));
    assert!(!companion_file_wanted("README.md"));
    assert!(!companion_file_wanted(""));
}

#[test]
fn launcher_configuration_is_set_for_the_export() {
    let config = "[Client]\nExecutable = 'auto'\nPath = 'auto'\nExecutableArgs = []\nOther = 'auto'\n";
    let expected = "[Client]\nExecutable = '.\\..\\steamclient_loader_x64.exe'\nPath = \".\\\\..\\\\AoE2DE\"\nExecutableArgs = [--overrideHosts=\".\\..\\dlls\\ageLANServerLauncherCompanion_AgeFakeHost_1.0.0.0.dll\"]\nOther = 'auto'\n";
    assert_eq!(patch_launcher_config(config), expected);
    assert_eq!(patch_launcher_config("nothing to change"), "nothing to change");
    assert_eq!(patch_launcher_config(""), "");
}

#[test]
fn registry_keys_are_asked_native_first() {
    assert_eq!(STEAM_AOE2_APP, "Steam App 813780");
    assert_eq!(
        uninstall_keys(STEAM_AOE2_APP),
        vec![
            String::from(
                "SOFTWARE\\Microsoft\\Windows\\CurrentVersion\\Uninstall\\Steam App 813780"
            ),
            String::from(
                "SOFTWARE\\WOW6432Node\\Microsoft\\Windows\\CurrentVersion\\Uninstall\\Steam App 813780"
            ),
        ]
    );
}

#[test]
fn first_registry_answer_wins() {
    assert_eq!(install_location(vec![]), None);
    assert_eq!(install_location(vec![None, None]), None);
    assert_eq!(
        install_location(vec![None, Some(String::from("D:\\Games\\AoE2DE"))]),
        Some(String::from("D:\\Games\\AoE2DE"))
    );
    assert_eq!(
        install_location(vec![Some(String::from("C:\\a")), Some(String::from("D:\\b"))]),
        Some(String::from("C:\\a"))
    );
}

#[test]
fn texts_compare_by_their_characters() {
    assert!(same_text("abc", "abc"));
    assert!(same_text("", ""));
    assert!(!same_text("abc", "abd"));
    assert!(!same_text("abc", "ab"));
    assert!(!same_text("abc", "ABC"));
}

fn zip_of(files: &[(&str, &[u8])]) -> Vec<u8> {
    let mut writer = zip::ZipWriter::new(std::io::Cursor::new(Vec::new()));
    for (name, contents) in files {
        writer.start_file(*name, zip::write::SimpleFileOptions::default()).unwrap();
        std::io::Write::write_all(&mut writer, contents).unwrap();
    }
    writer.finish().unwrap().into_inner()
}

fn file(name: &str, contents: &[u8]) -> aoe2_archiver::archive::ArchiveFile {
    aoe2_archiver::archive::ArchiveFile { name: String::from(name), contents: contents.to_vec() }
}

#[test]
fn every_file_of_a_zip_archive_comes_out_in_order() {
    let data = zip_of(&[("b.txt", b"second"), ("dir/a.bin", &[0, 1, 2, 255]), ("empty", b"")]);
    assert_eq!(
        aoe2_archiver::archive::extract_zip(data),
        Ok(vec![file("b.txt", b"second"), file("dir/a.bin", &[0, 1, 2, 255]), file("empty", b"")])
    );
    assert_eq!(aoe2_archiver::archive::extract_zip(zip_of(&[])), Ok(vec![]));
}

#[test]
fn bytes_that_are_no_archive_are_refused() {
    let refused = aoe2_archiver::archive::extract_zip(b"not a zip archive".to_vec()).unwrap_err();
    match &refused {
        aoe2_archiver::archive::ExtractError::NotAnArchive(reason) => {
            assert!(!reason.is_empty());
            assert_eq!(&refused.message(), reason);
        }
        other => panic!("unexpected error {other:?}"),
    }
    assert!(aoe2_archiver::archive::extract_zip(Vec::new()).is_err());
}

#[test]
fn an_entry_that_cannot_be_read_is_named_by_its_index() {
    let mut writer = zip::ZipWriter::new(std::io::Cursor::new(Vec::new()));
    let stored = zip::write::SimpleFileOptions::default()
        .compression_method(zip::CompressionMethod::Stored);
    writer.start_file("good.txt", stored).unwrap();
    std::io::Write::write_all(&mut writer, b"fine").unwrap();
    writer.start_file("bad.txt", stored).unwrap();
    std::io::Write::write_all(&mut writer, b"QQQQQQQQQQQQQQQQ").unwrap();
    let mut data = writer.finish().unwrap().into_inner();
    let at = data.windows(16).position(|w| w == b"QQQQQQQQQQQQQQQQ").unwrap();
    data[at] = b'Z';
    match aoe2_archiver::archive::extract_zip(data) {
        Err(aoe2_archiver::archive::ExtractError::BadEntry(index, reason)) => {
            assert_eq!(index, 1);
            assert!(!reason.is_empty());
        }
        other => panic!("unexpected result {other:?}"),
    }
}

#[test]
fn companion_files_are_taken_in_archive_order() {
    let archive = vec![
        file("README.md", b"r"),
        file("x_Age2_1.dll", b"two"),
        file("x_Age1_1.dll", b"one"),
        file("x_AgeFakeHost_1.dll", b"host"),
    ];
    assert_eq!(
        aoe2_archiver::aoe2::install_launcher_companion(&archive),
        vec![file("x_Age2_1.dll", b"two"), file("x_AgeFakeHost_1.dll", b"host")]
    );
    assert_eq!(aoe2_archiver::aoe2::install_launcher_companion(&vec![]), vec![]);
}

#[test]
fn an_archive_is_prepared_file_by_file() {
    let archive = vec![
        file("release/steamclient.dll", b"outside"),
        file("release/steamclient_experimental/SteamClient.dll", b"dll"),
        file("release/steamclient_experimental/steamclient_loader_x64.exe", b"exe"),
        file("release/steamclient_experimental/notes.txt", b"notes"),
        file("release/steamclient_experimental/ColdClientLoader.ini", b"ini"),
    ];
    let outputs = aoe2_archiver::goldberg::apply_goldberg(&archive, &key()).unwrap();
    assert_eq!(outputs.len(), 3);
    assert_eq!(outputs[0], OutputFile { name: String::from("SteamClient.dll"), contents: b"dll".to_vec() });
    assert_eq!(outputs[1].name, "steamclient_loader_x64.encrypted");
    assert_eq!(outputs[1].contents.len(), 3 + 16);
    assert_eq!(
        outputs[2],
        OutputFile { name: String::from("ColdClientLoader.ini"), contents: b"ini".to_vec() }
    );
    assert_eq!(aoe2_archiver::goldberg::apply_goldberg(&archive, &[1, 2, 3]), Err(SealError));
    let head = vec![
        file("release/steamclient.dll", b"outside"),
        file("release/steamclient_experimental/SteamClient.dll", b"dll"),
    ];
    assert_eq!(aoe2_archiver::goldberg::apply_goldberg(&head, &[]).unwrap().len(), 1);
}

#[test]
fn loader_configuration_is_set_for_the_game() {
    let text = "[SteamClient]\nExe=steam.exe\nAppId=0\nOther=kept\n\n[Injection]\nDllsToInjectFolder=\n";
    let doc = aoe2_archiver::goldberg::update_cold_client_loader(text).unwrap();
    assert_eq!(doc.get_from(Some("SteamClient"), "Exe"), Some("AoE2DE\\AoE2DE_s.exe"));
    assert_eq!(doc.get_from(Some("SteamClient"), "AppId"), Some("813780"));
    assert_eq!(doc.get_from(Some("SteamClient"), "Other"), Some("kept"));
    assert_eq!(doc.get_from(Some("Injection"), "DllsToInjectFolder"), Some("dlls"));
    let doc = aoe2_archiver::goldberg::update_cold_client_loader("").unwrap();
    assert_eq!(doc.get_from(Some("SteamClient"), "Exe"), Some("AoE2DE\\AoE2DE_s.exe"));
    assert_eq!(doc.get_from(Some("Injection"), "DllsToInjectFolder"), Some("dlls"));
}

#[test]
fn loader_configuration_that_does_not_parse_is_refused() {
    let refused = aoe2_archiver::goldberg::update_cold_client_loader("[SteamClient\nExe=1\n");
    assert!(!refused.unwrap_err().reason.is_empty());
}

#[test]
fn loader_configuration_is_found_in_any_case() {
    let names = vec![
        String::from("steamclient.dll"),
        String::from("ColdClientLoader.INI"),
        String::from("coldclientloader.ini"),
    ];
    assert_eq!(aoe2_archiver::goldberg::find_loader_ini(&names), Some(1));
    assert_eq!(aoe2_archiver::goldberg::find_loader_ini(&names[..1].to_vec()), None);
    assert_eq!(aoe2_archiver::goldberg::find_loader_ini(&vec![]), None);
    assert_eq!(
        aoe2_archiver::goldberg::find_loader_ini(&vec![String::from("coldclientloader.ini.bak")]),
        None
    );
}

#[test]
fn player_is_asked_only_for_a_missing_or_blank_name() {
    let named = aoe2_archiver::launch::read_settings("[user::general]\naccount_name=Joan\n").unwrap();
    assert!(!aoe2_archiver::launch::needs_account_name(&named));
    let blank = aoe2_archiver::launch::read_settings("[user::general]\naccount_name=   \n").unwrap();
    assert!(aoe2_archiver::launch::needs_account_name(&blank));
    let mut missing = aoe2_archiver::launch::read_settings("[user::general]\nlanguage=english\n").unwrap();
    assert!(aoe2_archiver::launch::needs_account_name(&missing));
    aoe2_archiver::launch::set_account_name(&mut missing, "  Saladin \r\n");
    assert_eq!(missing.get_from(Some("user::general"), "account_name"), Some("Saladin"));
    assert_eq!(missing.get_from(Some("user::general"), "language"), Some("english"));
    assert!(!aoe2_archiver::launch::needs_account_name(&missing));
    assert!(aoe2_archiver::launch::read_settings("[broken\n").is_err());
}

#[test]
fn sealed_loader_is_opened_only_where_it_is_missing() {
    let plain = b"MZ\x90\x00 loader".to_vec();
    let sealed = carry_out(EntryPlan::Seal(String::from("n")), plain.clone(), &key())
        .unwrap()
        .unwrap()
        .contents;
    assert_eq!(
        aoe2_archiver::launch::restore_loader(true, &sealed, &key()),
        Ok(aoe2_archiver::launch::LoaderAction::Keep)
    );
    assert_eq!(
        aoe2_archiver::launch::restore_loader(true, b"garbage", &[]),
        Ok(aoe2_archiver::launch::LoaderAction::Keep)
    );
    assert_eq!(
        aoe2_archiver::launch::restore_loader(false, &sealed, &key()),
        Ok(aoe2_archiver::launch::LoaderAction::Write(plain))
    );
    let mut other_key = key();
    other_key[0] ^= 1;
    assert_eq!(aoe2_archiver::launch::restore_loader(false, &sealed, &other_key), Err(SealError));
    assert_eq!(aoe2_archiver::launch::restore_loader(false, &sealed[1..], &key()), Err(SealError));
    assert_eq!(aoe2_archiver::launch::restore_loader(false, &sealed, &key()[..16]), Err(SealError));
}

#[test]
fn a_file_is_classified_by_its_lowercase_name() {
    assert_eq!(
        classify(String::from("Any.Name"), "steamclient.dll"),
        EntryPlan::Keep(String::from("Any.Name"))
    );
    assert_eq!(
        classify(String::from("x"), "steamclient64.dll"),
        EntryPlan::Keep(String::from("x"))
    );
    assert_eq!(
        classify(String::from("x"), "coldclientloader.ini"),
        EntryPlan::Keep(String::from("x"))
    );
    assert_eq!(
        classify(String::from("x"), "steamclient_loader_x64.exe"),
        EntryPlan::Seal(String::from("steamclient_loader_x64.encrypted"))
    );
    assert_eq!(classify(String::from("steamclient.dll"), "STEAMCLIENT.DLL"), EntryPlan::Skip);
    assert_eq!(classify(String::from("steamclient.dll"), ""), EntryPlan::Skip);
    assert_eq!(classify(String::from("x"), "steamclient_loader_x32.exe"), EntryPlan::Skip);
    assert_eq!(
        aoe2_archiver::goldberg::STEAM_SETTINGS_FILES,
        ["supported_languages.txt", "achievements.json", "configs.app.ini", "configs.user.ini"]
    );
}

#[test]
fn companion_words_are_looked_for_as_they_stand() {
    assert!(holds_companion_word("x_age2_y"));
    assert!(holds_companion_word("fakehost"));
    assert!(!holds_companion_word("AGE2"));
    assert!(!holds_companion_word("age 2 fake host"));
    assert!(!holds_companion_word(""));
}
