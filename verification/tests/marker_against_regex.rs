use regex::Regex;
use rustlings::marker::marker_line;

#[test]
fn marker_agrees_with_the_pattern() {
    let pattern = Regex::new(r"(?i)^\s*(?://?)?\s*I\s+AM\s+NOT\s+DONE").unwrap();
    let pieces = ["", " ", "\t", "/", "//", "///", "I", "i", "AM", "am", "NOT", "DONE", "done", "x"];
    let mut checked = 0;
    for a in pieces {
        for b in pieces {
            for c in pieces {
                for d in pieces {
                    for e in ["", " ", "NOT DONE", " NOT DONE", " AM NOT DONE", "AM  NOT\tDONE!"] {
                        let line = format!("{}{}{}{}{}", a, b, c, d, e);
                        let chars: Vec<char> = line.chars().collect();
                        assert_eq!(
                            marker_line(&chars),
                            pattern.is_match(&line),
                            "line {:?}",
                            line
                        );
                        checked += 1;
                    }
                }
            }
        }
    }
    assert!(checked > 100000);
}

#[test]
fn white_space_is_what_the_pattern_takes_for_it() {
    let pattern = Regex::new(r"^\s$").unwrap();
    for code in 0..0x3100u32 {
        if let Some(c) = char::from_u32(code) {
            let line = format!("//{}I AM NOT DONE", c);
            let chars: Vec<char> = line.chars().collect();
            let space = pattern.is_match(&c.to_string()) && c != '\n';
            assert_eq!(marker_line(&chars), space || c == '\n', "character {:?}", c);
            assert_eq!(c.is_whitespace(), rustlings::text::space(c), "character {:?}", c);
        }
    }
}
