use chrono::{Datelike, Local, Offset, Timelike};
use regex::Regex;
use zapnote::calendar::{quarter_from_week, Timestamp};
use zapnote::placeholder::Placeholder;

fn stamp_of(now: &chrono::DateTime<Local>) -> Timestamp {
    Timestamp {
        year: now.year(),
        month: now.month(),
        day: now.day(),
        hour: now.hour(),
        minute: now.minute(),
        second: now.second(),
        utc_offset_seconds: now.offset().fix().local_minus_utc(),
    }
}

fn fixed_moment() -> Timestamp {
    Timestamp { year: 2024, month: 3, day: 4, hour: 8, minute: 5, second: 9, utc_offset_seconds: 0 }
}

#[test]
fn test_parse_title() {
    let note_title = "Some kind of Wonderfull";
    let mut template = "{{title}}".to_string();

    Placeholder::parse_title(&mut template, note_title);

    assert_eq!(template, note_title);
}

#[test]
fn test_parse_title_wrong_placeholder() {
    let note_title = "Young Turks";
    let mut template = "{{titl}}".to_string();

    Placeholder::parse_title(&mut template, note_title);

    assert_ne!(template, note_title);
}

#[test]
fn test_parse_placeholder_time() {
    let template = "{{time}}".to_string();

    let now = Local::now();
    let current_time = now.format("%H:%M").to_string();

    let rendered = Placeholder::parse(template, "unused", &stamp_of(&now));

    assert_eq!(rendered, current_time);
}

#[test]
fn test_parse_placeholder_date() {
    let template = "{{date}}".to_string();

    let now = Local::now();
    let current_date = now.format("%Y-%m-%d").to_string();

    let rendered = Placeholder::parse(template, "unused", &stamp_of(&now));

    assert_eq!(rendered, current_date);
}

#[test]
fn test_parse_placeholder_with_quarter_template() {
    let template = "{{date:%Y-Q%Q}}".to_string();

    let now = Local::now();
    let current_year = now.format("%Y").to_string();
    let current_week = now.iso_week().week();

    let current_quarter = quarter_from_week(current_week);

    let asserted = format!("{}-Q{}", current_year, current_quarter);

    let rendered = Placeholder::parse(template, "unused", &stamp_of(&now));

    assert_eq!(rendered, asserted);
}

#[test]
fn title_replaced_everywhere_and_nothing_else() {
    let r = Placeholder::parse("# {{title}}\n\nsee {{title}}.".to_string(), "Plan B", &fixed_moment());
    assert_eq!(r, "# Plan B\n\nsee Plan B.");
    let mut t = "a{{title}}{{title}}b".to_string();
    Placeholder::parse_title(&mut t, "X");
    assert_eq!(t, "aXXb");
}

#[test]
fn misspelled_title_never_replaced() {
    for title in ["", "Young Turks", "{{title}}", "x"] {
        let r = Placeholder::parse("{{titl}}".to_string(), title, &fixed_moment());
        assert_eq!(r, "{{titl}}");
    }
}

#[test]
fn date_with_quarter_in_week_five() {
    // 2024-01-31 is in ISO week 5 of 2024.
    let moment = Timestamp { year: 2024, month: 1, day: 31, hour: 12, minute: 0, second: 0, utc_offset_seconds: 0 };
    let r = Placeholder::parse("{{date:%Y-Q%Q}}".to_string(), "t", &moment);
    assert_eq!(r, "2024-Q1");
}

#[test]
fn template_without_placeholders_unchanged() {
    for t in ["", "plain text", "{{ title }}", "{{time:}}", "{{date:%Y{x}}}", "{title}", "{{Title}}", "{{time"] {
        let r = Placeholder::parse(t.to_string(), "T", &fixed_moment());
        assert_eq!(r, t);
    }
}

#[test]
fn time_and_date_defaults_and_formats() {
    let r = Placeholder::parse(
        "{{time}}|{{time:%H-%M}}|{{date}}|{{date:%d/%m/%Y}}".to_string(),
        "T",
        &fixed_moment(),
    );
    assert_eq!(r, "08:05|08-05|2024-03-04|04/03/2024");
}

#[test]
fn replacement_text_is_not_scanned_again() {
    let r = Placeholder::parse("{{title}} {{date}}".to_string(), "{{time}}", &fixed_moment());
    assert_eq!(r, "{{time}} 2024-03-04");
}

#[test]
fn unwritable_format_left_in_place() {
    let r = Placeholder::parse("a {{date:%Y-%}} b {{date}}".to_string(), "T", &fixed_moment());
    assert_eq!(r, "a {{date:%Y-%}} b 2024-03-04");
}

fn reference_render(template: &str, title: &str, now: &chrono::DateTime<chrono::FixedOffset>) -> String {
    let quarter = quarter_from_week(now.iso_week().week()).to_string();
    let with_title = template.replace("{{title}}", title);
    let time = Regex::new(r"\{\{time(:([^{}]+))?\}\}").unwrap();
    let date = Regex::new(r"\{\{date(:([^{}]+))?\}\}").unwrap();
    let after_time = time
        .replace_all(&with_title, |caps: &regex::Captures| {
            let f = caps.get(2).map_or("%H:%M", |m| m.as_str()).replace("%Q", &quarter);
            now.format(&f).to_string()
        })
        .to_string();
    date.replace_all(&after_time, |caps: &regex::Captures| {
        let f = caps.get(2).map_or("%Y-%m-%d", |m| m.as_str()).replace("%Q", &quarter);
        now.format(&f).to_string()
    })
    .to_string()
}

#[test]
fn render_agrees_with_pattern_matching() {
    let offset = chrono::FixedOffset::east_opt(0).unwrap();
    let now = chrono::NaiveDate::from_ymd_opt(2024, 3, 4)
        .unwrap()
        .and_hms_opt(8, 5, 9)
        .unwrap()
        .and_local_timezone(offset)
        .unwrap();
    let templates = [
        "# {{title}}\nCreated {{date}} at {{time}}",
        "{{{date}}}",
        "{{time:%H:%M:%S}}{{date:Q%Q-%Y}}",
        "{{date:a:b}} {{time:}} {{date:}}}",
        "{{{{time}}}}",
        "{{date:%A, %B %e}} and {{time:%I %p}}",
        "ünïcode {{title}} ✓ {{date:%j}}",
    ];
    for t in templates {
        let expected = reference_render(t, "Note", &now);
        let r = Placeholder::parse(t.to_string(), "Note", &fixed_moment());
        assert_eq!(r, expected, "template {:?}", t);
    }
}
