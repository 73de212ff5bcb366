use domain_manager::dns_manager::{handle_key, App, DnsProvider, DomainName, Key, Message, Page, Theme};
use domain_manager::gui_model::{Page as GuiPage, SettingsPage};

#[test]
fn it_counts_properly() {
    let mut app = App::default();

    app.update(Message::Increment);
    app.update(Message::Increment);
    app.update(Message::Decrement);

    assert_eq!(app.counter, 1);
}

#[test]
fn counter_stops_at_zero() {
    let mut app = App::default();
    app.update(Message::Decrement);
    assert_eq!(app.counter, 0);
}

#[test]
fn starts_with_two_domains() {
    let app = App::default();
    let names: Vec<&str> = app.domain_names.iter().map(|d| d.name.as_str()).collect();
    assert_eq!(names, vec!["chenyunlong.cn", "stanic.xyz"]);
    assert_eq!(app.config.name, "Domain Manager");
    assert_eq!(app.theme, Theme::Light);
    assert_eq!(app.add_domain_field.provider, Some(DnsProvider::Aliyun));
}

#[test]
fn submitting_the_form_adds_the_domain() {
    let mut app = App::default();
    app.update(Message::ChangePage(Page::AddDomain));
    app.update(Message::AddDomainFormChanged("example.org".to_string()));
    app.update(Message::DnsProviderSelected(DnsProvider::CloudFlare));
    app.update(Message::SubmitDomainForm);
    assert_eq!(app.domain_names.len(), 3);
    assert_eq!(app.domain_names[2].name, "example.org");
    assert_eq!(app.current_page, Page::DomainPage);
    assert_eq!(app.add_domain_field.provider, Some(DnsProvider::CloudFlare));
}

#[test]
fn h_opens_and_closes_help() {
    let mut app = App::default();
    app.update(Message::ChangePage(Page::AddRecord));
    app.update(Message::KeyInput { key: Key::Character("h".to_string()) });
    assert_eq!(app.current_page, Page::Help);
    assert_eq!(app.last_page, Some(Page::AddRecord));
    app.update(Message::KeyInput { key: Key::Character("h".to_string()) });
    assert_eq!(app.current_page, Page::AddRecord);
    app.update(Message::KeyInput { key: Key::Character("x".to_string()) });
    assert_eq!(app.current_page, Page::AddRecord);
    assert!(handle_key(&app, &Key::Other).is_none());
}

#[test]
fn theme_toggles() {
    let mut app = App::default();
    app.update(Message::ToggleTheme);
    assert_eq!(app.theme, Theme::Dark);
    app.update(Message::ToggleTheme);
    assert_eq!(app.theme, Theme::Light);
}

#[test]
fn page_texts() {
    let d = DomainName::from_name("a.com".to_string());
    assert_eq!(Page::DnsRecord(d).to_display_string("Add record"), "DnsRecord(a.com)");
    assert_eq!(Page::AddRecord.to_display_string("Add record"), "Add record");
    assert_eq!(Page::DomainPage.to_display_string(""), "page_domain_manage");
    assert_eq!(DnsProvider::TencentCloud.to_string(), "TencentCloud");
    assert_eq!(GuiPage::Settings(SettingsPage::Appearance).to_display_string("a", "e"), "Settings: Appearance");
    assert_eq!(GuiPage::Console.to_display_string("a", "e"), "控制台");
    assert_eq!(GuiPage::AddRecord.to_display_string("添加记录", "e"), "添加记录");
}
