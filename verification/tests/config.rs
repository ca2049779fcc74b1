use ico2img::config::{format_from_config, format_from_entry, resolve_format};
use ico2img::format::{FormatError, SupportedImages};

#[test]
fn config_declares_the_format() {
    assert_eq!(format_from_config("[ico2img]\nformat = \"bmp\"\n"), Ok(SupportedImages::Bmp));
    assert_eq!(format_from_config("ico2img = { format = 'webp' }"), Ok(SupportedImages::Webp));
    assert_eq!(format_from_config("ico2img.format = \"JPEG\""), Ok(SupportedImages::Jpeg));
}

#[test]
fn config_may_hold_more_than_the_format() {
    let text = "title = \"x\"\n[other]\nformat = \"png\"\n[ico2img]\nquality = 3\nformat = \"jpg\"\n";
    assert_eq!(format_from_config(text), Ok(SupportedImages::Jpeg));
}

#[test]
fn config_without_format_is_an_error() {
    assert_eq!(format_from_config(""), Err(FormatError::FormatNotSpecified));
    assert_eq!(format_from_config("[ico2img]\n"), Err(FormatError::FormatNotSpecified));
    assert_eq!(format_from_config("format = \"png\"\n"), Err(FormatError::FormatNotSpecified));
    assert_eq!(
        format_from_config("[tool]\nformat = \"png\"\n"),
        Err(FormatError::FormatNotSpecified)
    );
    assert_eq!(format_from_config("ico2img = \"png\"\n"), Err(FormatError::FormatNotSpecified));
}

#[test]
fn config_format_that_is_no_string_is_not_specified() {
    assert_eq!(format_from_config("[ico2img]\nformat = 3\n"), Err(FormatError::FormatNotSpecified));
    assert_eq!(
        format_from_config("[ico2img]\nformat = [\"png\"]\n"),
        Err(FormatError::FormatNotSpecified)
    );
    assert_eq!(
        format_from_config("[ico2img.format]\nname = \"png\"\n"),
        Err(FormatError::FormatNotSpecified)
    );
}

#[test]
fn config_with_unknown_format_is_an_error() {
    assert_eq!(
        format_from_config("[ico2img]\nformat = \"Gif\"\n"),
        Err(FormatError::UnsupportedFormat("Gif".to_string()))
    );
    assert_eq!(
        format_from_config("[ico2img]\nformat = \"\"\n"),
        Err(FormatError::UnsupportedFormat(String::new()))
    );
}

#[test]
fn config_that_is_no_toml_is_an_error() {
    for text in ["[ico2img", "format = ", "= 3", "[ico2img]\nformat = \"png\"\nformat = \"bmp\"\n"] {
        assert!(matches!(format_from_config(text), Err(FormatError::InvalidConfig(_))), "{text}");
    }
}

#[test]
fn invalid_config_carries_the_parser_error() {
    let expected = toml::from_str::<toml::Value>("[ico2img").unwrap_err();
    assert_eq!(format_from_config("[ico2img"), Err(FormatError::InvalidConfig(expected)));
}

#[test]
fn found_name_is_parsed() {
    assert_eq!(format_from_entry(Some("png")), Ok(SupportedImages::Png));
    assert_eq!(format_from_entry(Some("JPG")), Ok(SupportedImages::Jpeg));
    assert_eq!(
        format_from_entry(Some("ico")),
        Err(FormatError::UnsupportedFormat("ico".to_string()))
    );
    assert_eq!(format_from_entry(None), Err(FormatError::FormatNotSpecified));
}

#[test]
fn config_wins_over_the_command_line() {
    let config = "[ico2img]\nformat = \"bmp\"\n";
    assert_eq!(resolve_format(SupportedImages::Png, Some(config)), Ok(SupportedImages::Bmp));
    assert_eq!(resolve_format(SupportedImages::Webp, Some(config)), Ok(SupportedImages::Bmp));
}

#[test]
fn command_line_format_stands_without_config() {
    assert_eq!(resolve_format(SupportedImages::Png, None), Ok(SupportedImages::Png));
    assert_eq!(resolve_format(SupportedImages::Jpeg, None), Ok(SupportedImages::Jpeg));
}

#[test]
fn config_without_format_does_not_fall_back() {
    assert_eq!(
        resolve_format(SupportedImages::Png, Some("[ico2img]\n")),
        Err(FormatError::FormatNotSpecified)
    );
}
