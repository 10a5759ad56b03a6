use lsmon::datatools::{
    is_number_text, mount_line_of, parse_decimal, parse_fs_mount_line, parse_mount_table,
    MountLine,
};

fn gib(blocks: &str) -> f32 {
    blocks.parse::<f32>().unwrap() * (1.0 / 1024.0 / 1024.0)
}

fn like_the_scanner(line: &str) -> Option<MountLine> {
    let mut tokens = scan_fmt::parse::scan(line, "{} {f} {f} {f} {d}% {}");
    let name = tokens.next();
    let size = tokens.next();
    let used = tokens.next();
    let available = tokens.next();
    let usage = tokens.next();
    let mount = tokens.next();
    size.as_ref()?.parse::<f32>().ok()?;
    used.as_ref()?.parse::<f32>().ok()?;
    available.as_ref()?.parse::<f32>().ok()?;
    Some(MountLine {
        name: name?,
        size: size?,
        used: used?,
        available: available?,
        usage: usage?.parse::<u32>().ok()?,
        mount: mount?,
    })
}

fn line(name: &str, size: &str, used: &str, available: &str, usage: u32, mount: &str) -> MountLine {
    MountLine {
        name: String::from(name),
        size: String::from(size),
        used: String::from(used),
        available: String::from(available),
        usage,
        mount: String::from(mount),
    }
}

#[test]
fn fs_mount_line_can_parse() {
    let mount_info =
        parse_fs_mount_line("rootfs         243202148 181396036  61806112  75% /").unwrap();
    assert_eq!("rootfs", mount_info.name);
    assert_eq!(243202148.0 / 1024.0 / 1024.0, gib(&mount_info.size));
    assert_eq!(181396036.0 / 1024.0 / 1024.0, gib(&mount_info.used));
    assert_eq!(61806112.0 / 1024.0 / 1024.0, gib(&mount_info.available));
    assert_eq!(75, mount_info.usage);
    assert_eq!("/", mount_info.mount);
}

#[test]
#[should_panic]
fn bad_fs_mount_line_returns_none() {
    parse_fs_mount_line("rootfs         x y  61806112  75% /").unwrap();
}

#[test]
fn mount_line_keeps_the_numbers_as_written() {
    assert_eq!(
        parse_fs_mount_line("rootfs         243202148 181396036  61806112  75% /"),
        Some(line("rootfs", "243202148", "181396036", "61806112", 75, "/"))
    );
    assert_eq!(
        parse_fs_mount_line("tmpfs 1.5e3 -2 +7.25 0% /run/lock"),
        Some(line("tmpfs", "1.5e3", "-2", "7.25", 0, "/run/lock"))
    );
}

#[test]
fn mount_line_takes_a_line_ending() {
    assert_eq!(
        parse_fs_mount_line("C:\\ 498687252 163539820 335147432 33% /mnt/c\r\n"),
        Some(line("C:\\", "498687252", "163539820", "335147432", 33, "/mnt/c"))
    );
}

#[test]
fn mount_line_that_ends_early_is_none() {
    assert_eq!(parse_fs_mount_line(""), None);
    assert_eq!(parse_fs_mount_line("   "), None);
    assert_eq!(parse_fs_mount_line("rootfs"), None);
    assert_eq!(parse_fs_mount_line("rootfs 12"), None);
    assert_eq!(parse_fs_mount_line("rootfs 12 13 14"), None);
    assert_eq!(parse_fs_mount_line("rootfs 12 13 14 75"), None);
    assert_eq!(parse_fs_mount_line("rootfs 12 13 14 75%"), None);
    assert_eq!(parse_fs_mount_line("rootfs 12 13 14 75 /"), None);
}

#[test]
fn mount_line_with_a_usage_that_is_no_number_is_none() {
    assert_eq!(parse_fs_mount_line("rootfs 12 13 14 -% /"), None);
    assert_eq!(parse_fs_mount_line("rootfs 12 13 14 -5% /"), None);
    assert_eq!(parse_fs_mount_line("rootfs 12 13 14 4294967296% /"), None);
    assert_eq!(
        parse_fs_mount_line("rootfs 12 13 14 4294967295% /"),
        Some(line("rootfs", "12", "13", "14", 4294967295, "/"))
    );
}

#[test]
fn mount_line_agrees_with_the_scanner() {
    let samples = [
        "rootfs         243202148 181396036  61806112  75% /",
        "Filesystem     1K-blocks      Used Available Use% Mounted on",
        "none  243202148 181396036  61806112  75% /dev",
        "tmpfs 1.5 2.5 3.5 10% /run more",
        "a 1 2 3 +4% b",
        "a 1 2 3 4 % b",
        "a 1. .2 3e 4% b",
        "a - + . 4% b",
        "a 1 2 3 004% b ",
        "\ta\t1\t2\t3\t4%\tb\t",
        "a 1 2 3 4%b",
        "a 1 2 3 4%",
        "a 1 2 3 99999999999% b",
        "gr\u{fc}n 1 2 3 4% \u{1f600}",
        "a 1e5 2e-3 3e+2 4% b",
    ];
    for sample in samples.iter() {
        assert_eq!(parse_fs_mount_line(sample), like_the_scanner(sample));
    }
}

#[test]
fn mount_line_with_a_size_that_is_no_number_is_none() {
    assert_eq!(parse_fs_mount_line("rootfs - 13 14 75% /"), None);
    assert_eq!(parse_fs_mount_line("rootfs 12 . 14 75% /"), None);
    assert_eq!(parse_fs_mount_line("rootfs 12 13 1e 75% /"), None);
    assert_eq!(parse_fs_mount_line("rootfs 12 13 1e+ 75% /"), None);
}

#[test]
fn number_is_digits_with_sign_point_and_exponent() {
    let numbers = [
        "0", "243202148", "1.5", "5.", ".5", "-2", "+7.25", "1e5", "1E5", "1.e5", "2e-3", "3e+2",
        "-.5e-10",
    ];
    for text in numbers {
        assert!(is_number_text(text), "{:?}", text);
    }
    let others = [
        "", "+", "-", ".", "e5", "1e", "1e+", "1.2.3", "--1", "1-", "1e5.", "1 ", " 1", "x", "1x",
        "inf", "nan", "\u{661}",
    ];
    for text in others {
        assert!(!is_number_text(text), "{:?}", text);
    }
}

#[test]
fn number_is_what_std_parses() {
    let alphabet = ['0', '7', '+', '-', '.', 'e', 'E'];
    let mut texts = vec![String::new()];
    let mut from = 0;
    for _ in 0..6 {
        let until = texts.len();
        for at in from..until {
            for c in alphabet.iter() {
                let mut longer = texts[at].clone();
                longer.push(*c);
                texts.push(longer);
            }
        }
        from = until;
    }
    assert_eq!(texts.len(), 137257);
    for text in texts.iter() {
        assert_eq!(is_number_text(text), text.parse::<f32>().is_ok(), "{:?}", text);
    }
}

#[test]
fn mount_line_of_six_tokens() {
    let tokens: Vec<String> =
        ["rootfs", "1", "2", "3", "75", "/"].iter().map(|t| String::from(*t)).collect();
    assert_eq!(mount_line_of(&tokens), Some(line("rootfs", "1", "2", "3", 75, "/")));
}

#[test]
fn mount_line_of_too_few_tokens_is_none() {
    let tokens: Vec<String> =
        ["rootfs", "1", "2", "3", "75"].iter().map(|t| String::from(*t)).collect();
    assert_eq!(mount_line_of(&tokens), None);
    assert_eq!(mount_line_of(&Vec::new()), None);
}

#[test]
fn mount_line_of_a_bad_size_is_none() {
    let tokens: Vec<String> =
        ["rootfs", "1", "x", "3", "75", "/"].iter().map(|t| String::from(*t)).collect();
    assert_eq!(mount_line_of(&tokens), None);
}

#[test]
fn mount_line_of_a_bad_usage_is_none() {
    let tokens: Vec<String> =
        ["rootfs", "1", "2", "3", "", "/"].iter().map(|t| String::from(*t)).collect();
    assert_eq!(mount_line_of(&tokens), None);
}

#[test]
fn decimal_is_parsed_as_std_does() {
    let samples = [
        "", "0", "7", "75", "007", "+", "+5", "++5", "-5", "-", "5+", "4294967295", "4294967296",
        "42949672950", "99999999999999999999999999", "12a", "a12", " 12", "12 ", "1 2", "\u{661}",
        "+0", "00000000000000000000000000001", "1e3", "1.0",
    ];
    for sample in samples.iter() {
        assert_eq!(parse_decimal(sample), sample.parse::<u32>().ok());
    }
    assert_eq!(parse_decimal("75"), Some(75));
    assert_eq!(parse_decimal("4294967296"), None);
}

#[test]
fn mount_table_skips_the_heading_and_what_is_no_line() {
    let listing = "Filesystem     1K-blocks      Used Available Use% Mounted on\n\
                   rootfs         243202148 181396036  61806112  75% /\n\
                   none           243202148 181396036  61806112  75% /dev\n\
                   some words that are no line\n\
                   \n\
                   C:\\            498687252 163539820 335147432  33% /mnt/c\n";
    assert_eq!(
        parse_mount_table(listing),
        vec![
            line("rootfs", "243202148", "181396036", "61806112", 75, "/"),
            line("none", "243202148", "181396036", "61806112", 75, "/dev"),
            line("C:\\", "498687252", "163539820", "335147432", 33, "/mnt/c"),
        ]
    );
}

#[test]
fn mount_table_passes_over_a_line_that_ends_in_a_number() {
    assert_eq!(
        parse_mount_table("h\na 1 2 3\n4% b\nc 5 6 7 8% d"),
        vec![line("c", "5", "6", "7", 8, "d")]
    );
}

#[test]
fn mount_table_never_takes_the_first_line() {
    assert_eq!(parse_mount_table("rootfs 1 2 3 75% /"), Vec::new());
    assert_eq!(parse_mount_table("rootfs 1 2 3 75% /\n"), Vec::new());
    assert_eq!(parse_mount_table(""), Vec::new());
    assert_eq!(parse_mount_table("\n"), Vec::new());
    assert_eq!(
        parse_mount_table("\nrootfs 1 2 3 75% /"),
        vec![line("rootfs", "1", "2", "3", 75, "/")]
    );
}

#[test]
fn mount_table_agrees_with_std_lines() {
    let samples = [
        "",
        "\n",
        "h\n\n",
        "h\na 1 2 3 4% b",
        "h\r\na 1 2 3 4% b\r\nc 5 6 7 8% d\r\n",
        "h\na 1 2 3 4% b\n\nc 5 6 7 8% d\n",
        "h\na 1 2 3 \n4% b\n",
        "h\na 1 2 3 4% b\r",
        "a 1 2 3 4% b\na 1 2 3 4% b\na 1 2 3 4% b",
    ];
    for sample in samples.iter() {
        let expected: Vec<MountLine> =
            sample.lines().skip(1).filter_map(like_the_scanner).collect();
        assert_eq!(parse_mount_table(sample), expected);
    }
}
