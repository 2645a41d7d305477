use layer_console::main_options::{main_options, MainOption, OptionArg};

fn find(name: &str) -> MainOption {
    let options = main_options();
    let found: Vec<&MainOption> = options.iter().filter(|o| o.long_name == name).collect();
    assert_eq!(found.len(), 1);
    *found[0]
}

#[test]
fn twelve_options_are_registered_in_order() {
    let names: Vec<&str> = main_options().iter().map(|o| o.long_name).collect();
    assert_eq!(
        names,
        vec![
            "command",
            "working-directory",
            "rows",
            "columns",
            "font",
            "top",
            "bottom",
            "left",
            "right",
            "exclusive",
            "on-demand",
            "config",
        ]
    );
}

#[test]
fn command_option_is_a_flag_with_a_short_name() {
    assert_eq!(
        find("command"),
        MainOption {
            long_name: "command",
            short_name: Some('e'),
            arg: OptionArg::Flag,
            description: "Execute arguments inside the terminal",
            arg_description: None,
        }
    );
}

#[test]
fn size_options_take_integers() {
    assert_eq!(
        find("rows"),
        MainOption {
            long_name: "rows",
            short_name: Some('r'),
            arg: OptionArg::Int,
            description: "Set rows",
            arg_description: Some("ROWS"),
        }
    );
    assert_eq!(
        find("columns"),
        MainOption {
            long_name: "columns",
            short_name: Some('c'),
            arg: OptionArg::Int,
            description: "Set columns",
            arg_description: Some("COLUMNS"),
        }
    );
}

#[test]
fn text_options_take_strings() {
    assert_eq!(
        find("font"),
        MainOption {
            long_name: "font",
            short_name: Some('f'),
            arg: OptionArg::Text,
            description: "Set font",
            arg_description: Some("FONT"),
        }
    );
    assert_eq!(
        find("working-directory"),
        MainOption {
            long_name: "working-directory",
            short_name: None,
            arg: OptionArg::Text,
            description: "Set the wrking directory",
            arg_description: Some("DIRNAME"),
        }
    );
}

#[test]
fn config_option_takes_a_file_name() {
    assert_eq!(
        find("config"),
        MainOption {
            long_name: "config",
            short_name: None,
            arg: OptionArg::Filename,
            description: "config file path",
            arg_description: Some("CONFIG"),
        }
    );
}

#[test]
fn position_and_keyboard_options_are_plain_flags() {
    let expected = [
        ("top", "Set position top (default)"),
        ("bottom", "Set position bottom"),
        ("left", "Set position left"),
        ("right", "Set position right"),
        ("exclusive", "Set keyboard mode exclusive"),
        ("on-demand", "Set keyboard mode on-demand (default)"),
    ];
    for (name, description) in expected {
        assert_eq!(
            find(name),
            MainOption {
                long_name: name,
                short_name: None,
                arg: OptionArg::Flag,
                description,
                arg_description: None,
            }
        );
    }
}
