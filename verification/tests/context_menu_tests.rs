use archive_extractor::context_menu::{
    command_key, dir_menu_key, file_menu_key, menu_command, registered_check_key, MENU_NAME,
    MENU_NAME_FLAT,
};

#[test]
fn commands() {
    assert_eq!(menu_command("C:/Tools/ae-gui.exe", false), "\"C:\\Tools\\ae-gui.exe\" \"%1\"");
    assert_eq!(
        menu_command("C:/Tools/ae-gui.exe", true),
        "\"C:\\Tools\\ae-gui.exe\" --flat \"%1\""
    );
}

#[test]
fn keys() {
    assert_eq!(file_menu_key(MENU_NAME), "*\\shell\\AE_Extract");
    assert_eq!(dir_menu_key(MENU_NAME_FLAT), "Directory\\shell\\AE_Extract_Flat");
    assert_eq!(command_key(&file_menu_key(MENU_NAME)), "*\\shell\\AE_Extract\\command");
    assert_eq!(registered_check_key(MENU_NAME), "Software\\Classes\\*\\shell\\AE_Extract");
}
