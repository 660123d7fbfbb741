use sietor::text::split_lines;

fn chars(s: &str) -> Vec<char> {
    s.chars().collect()
}

#[test]
fn split_lines_cases() {
    assert_eq!(split_lines(""), Vec::<Vec<char>>::new());
    assert_eq!(split_lines("a"), vec![chars("a")]);
    assert_eq!(split_lines("a\n"), vec![chars("a")]);
    assert_eq!(split_lines("\n"), vec![chars("")]);
    assert_eq!(split_lines("a\nb"), vec![chars("a"), chars("b")]);
    assert_eq!(split_lines("a\r\nb\n"), vec![chars("a"), chars("b")]);
    assert_eq!(split_lines("a\n\nb"), vec![chars("a"), chars(""), chars("b")]);
    assert_eq!(split_lines("x\r"), vec![chars("x\r")]);
}

#[test]
fn split_lines_agrees_with_std_lines() {
    let samples = [
        "",
        "a",
        "a\n",
        "a\r\nb",
        "x\r",
        "\r\n",
        "a\n\nb",
        "one\ntwo\r\nthree\r",
    ];
    for s in samples {
        let expected: Vec<Vec<char>> = s.lines().map(|l| l.chars().collect()).collect();
        assert_eq!(split_lines(s), expected);
    }
}
