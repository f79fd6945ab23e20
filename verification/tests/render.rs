use exa_fields::fields::{Group, User};
use exa_fields::render::groups::{Colours as GroupColours, Palette as GroupPalette};
use exa_fields::render::users::{Colours as UserColours, Palette as UserPalette};
use exa_fields::render::{alert_style, Colour, Style, UserFormat};
use exa_fields::sid::{AccountName, Error};

fn account(name: &str, domain: &str) -> AccountName {
    AccountName { name: name.to_owned(), domain: domain.to_owned() }
}

fn user_palette() -> UserPalette {
    UserPalette {
        you_style: Style { foreground: Some(Colour::Yellow), bold: true },
        someone_else_style: Style { foreground: Some(Colour::Green), bold: false },
    }
}

fn group_palette() -> GroupPalette {
    GroupPalette {
        yours_style: Style { foreground: Some(Colour::Cyan), bold: false },
        not_yours_style: Style { foreground: Some(Colour::Blue), bold: false },
    }
}

#[test]
fn resolved_user_renders_domain_slash_name() {
    let user = User::Id(501);
    let resolution = Ok(account("User", "DOM"));
    let cell = user.render(&user_palette(), UserFormat::Name, &resolution);
    assert_eq!(cell.text, "DOM/User");
    assert_eq!(cell.style, user_palette().someone_else());
}

#[test]
fn failed_user_resolution_renders_the_error_marker() {
    let user = User::Id(501);
    let resolution = Err(Error::NotFound);
    let cell = user.render(&user_palette(), UserFormat::Name, &resolution);
    assert_eq!(cell.text, "ERROR");
    assert_eq!(cell.style, Style { foreground: Some(Colour::Red), bold: true });
}

#[test]
fn failed_resolution_style_is_the_alert_style_for_every_error() {
    let user = User::Id(0);
    for e in [Error::NotFound, Error::PermissionDenied, Error::InvalidInput(122)] {
        let cell = user.render(&user_palette(), UserFormat::Numeric, &Err(e));
        assert_eq!(cell.text, "ERROR");
        assert_eq!(cell.style, alert_style());
    }
}

#[test]
fn resolved_group_renders_domain_slash_name() {
    let group = Group::Id(20);
    let resolution = Ok(account("Users", "DOM"));
    let cell = group.render(&group_palette(), UserFormat::Name, &resolution);
    assert_eq!(cell.text, "DOM/Users");
    assert_eq!(cell.style, group_palette().not_yours());
}

#[test]
fn failed_group_resolution_renders_the_error_marker() {
    let group = Group::Id(20);
    let cell = group.render(&group_palette(), UserFormat::Name, &Err(Error::InvalidInput(5)));
    assert_eq!(cell.text, "ERROR");
    assert_eq!(cell.style, alert_style());
}

#[test]
fn security_context_user_renders_like_any_other() {
    let mut releases: Vec<u64> = vec![];
    let info = exa_fields::sid::NamedSecurityInfo::from_acquisition(1, 2, 3, &mut releases)
        .ok()
        .unwrap();
    let user = User::Security(info);
    let cell = user.render(&user_palette(), UserFormat::Name, &Ok(account("User", "DOM")));
    assert_eq!(cell.text, "DOM/User");
    assert_eq!(cell.style, user_palette().someone_else());
}

#[test]
fn alert_style_is_bold_red() {
    let s = alert_style();
    assert_eq!(s, Style { foreground: Some(Colour::Red), bold: true });
}
