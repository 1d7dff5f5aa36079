use minigrep::{filter_lines, fold_case, keep_if_found, search, search_case_insensitive};

#[test]
fn search_returns_line_which_contains_query() {
    let query = "duct";
    let contents = "\
Rust:
safe, fast, productive.
Pick three.";
    assert_eq!(vec!["safe, fast, productive."], search(query, contents));
}

#[test]
fn search_returns_line_which_contains_query_unicode() {
    let query = "Привет, мир! ⛵";
    let contents = "\
Это мой текст.
Hello, world! Привет, мир! ⛵⛵⛵";
    assert_eq!(vec!["Hello, world! Привет, мир! ⛵⛵⛵"], search(query, contents));
}

#[test]
fn search_returns_several_lines_which_contain_query() {
    let query = "Hello";
    let contents = "\
Hi, people!
Hello, world!
Hello, country!
I'm Artem.";
    assert_eq!(
        vec!["Hello, world!", "Hello, country!"],
        search(query, contents)
    );
}

#[test]
fn search_case_insensitive_returns_line_which_contains_query() {
    let query = "duct";
    let contents = "\
Rust:
safe, fast, productive.
Pick three.";
    assert_eq!(vec!["safe, fast, productive."], search_case_insensitive(query, contents));
}

#[test]
fn search_case_insensitive_returns_line_which_contains_query_regardless_of_case() {
    let query = "THReE";
    let contents = "\
Rust:
safe, fast, productive.
Pick three.";
    assert_eq!(vec!["Pick three."], search_case_insensitive(query, contents));
}

#[test]
fn search_case_insensitive_returns_line_which_contains_query_unicode() {
    let query = "привет, МИР! ⛵";
    let contents = "\
Это мой текст.
Hello, world! Привет, мир! ⛵⛵⛵";
    assert_eq!(
        vec!["Hello, world! Привет, мир! ⛵⛵⛵"],
        search_case_insensitive(query, contents)
    );
}

#[test]
fn search_is_exact_about_case() {
    let contents = "Rust:\nsafe, fast, productive.\nPick three.\nTrust me.";
    assert_eq!(vec!["Rust:", "Trust me."], search("ust", contents));
    assert_eq!(vec!["Rust:"], search("Rust", contents));
    assert_eq!(Vec::<&str>::new(), search("rUsT", contents));
    assert_eq!(vec!["Rust:", "Trust me."], search_case_insensitive("rUsT", contents));
}

#[test]
fn search_keeps_order_and_repeated_lines() {
    let contents = "one\ntwo\none\nthree\none two";
    assert_eq!(vec!["one", "one", "one two"], search("one", contents));
    assert_eq!(vec!["two", "one two"], search("two", contents));
    assert_eq!(vec!["one", "two", "one", "one two"], search("o", contents));
}

#[test]
fn search_finds_a_line_once_however_often_it_holds_the_query() {
    assert_eq!(vec!["banana"], search("an", "banana\ncherry"));
    assert_eq!(vec!["aaaa"], search("aa", "aaaa"));
}

#[test]
fn search_finds_nothing_where_no_line_matches() {
    assert_eq!(Vec::<&str>::new(), search("xyz", "Rust:\nsafe, fast, productive."));
    assert_eq!(Vec::<&str>::new(), search_case_insensitive("xyz", "Rust:\nsafe."));
}

#[test]
fn search_in_empty_contents_finds_nothing() {
    assert_eq!(Vec::<&str>::new(), search("a", ""));
    assert_eq!(Vec::<&str>::new(), search("", ""));
    assert_eq!(Vec::<&str>::new(), search_case_insensitive("a", ""));
    assert_eq!(Vec::<&str>::new(), search_case_insensitive("", ""));
}

#[test]
fn empty_query_finds_every_line() {
    let contents = "first\n\nthird\n";
    assert_eq!(vec!["first", "", "third"], search("", contents));
    assert_eq!(vec!["first", "", "third"], search_case_insensitive("", contents));
    assert_eq!(vec!["first", "", "third"], filter_lines("", contents, true));
    assert_eq!(vec!["first", "", "third"], filter_lines("", contents, false));
}

#[test]
fn closing_line_feed_adds_no_line() {
    assert_eq!(vec!["a", "b"], search("", "a\nb\n"));
    assert_eq!(vec!["a", "b"], search("", "a\nb"));
    assert_eq!(vec!["a", "b", ""], search("", "a\nb\n\n"));
    assert_eq!(vec![""], search("", "\n"));
}

#[test]
fn carriage_return_before_line_feed_ends_the_line() {
    assert_eq!(vec!["a", "b"], search("", "a\r\nb\r\n"));
    assert_eq!(vec!["a\r"], search("", "a\r\r\n"));
    assert_eq!(vec![""], search("", "\r\n"));
    assert_eq!(Vec::<&str>::new(), search("\r", "a\r\nb\r\n"));
}

#[test]
fn carriage_return_alone_stays_in_the_line() {
    assert_eq!(vec!["a\rb"], search("", "a\rb"));
    assert_eq!(vec!["a", "b\r"], search("", "a\nb\r"));
    assert_eq!(vec!["b\r"], search("\r", "a\nb\r"));
}

#[test]
fn query_never_reaches_across_lines() {
    assert_eq!(Vec::<&str>::new(), search("a\nb", "a\nb"));
    assert_eq!(Vec::<&str>::new(), search("\n", "a\nb\n"));
    assert_eq!(Vec::<&str>::new(), search("ab", "a\nb"));
}

#[test]
fn query_longer_than_the_line_does_not_match() {
    assert_eq!(Vec::<&str>::new(), search("three.", "three"));
    assert_eq!(vec!["three"], search("three", "three"));
}

#[test]
fn every_exact_match_is_a_folded_match() {
    let contents = "Rust:\nTRUST\ntrust\nrust and dust\nDUST";
    for query in ["ust", "UST", "Rust", "r", "", "T", "dust"] {
        let exact = search(query, contents);
        let folded = search_case_insensitive(query, contents);
        assert!(exact.len() <= folded.len());
        for line in exact {
            assert!(folded.contains(&line));
        }
    }
}

#[test]
fn folded_match_does_not_depend_on_where_a_letter_stands() {
    // Capital sigma folds to the same letter at the end of a word as
    // anywhere else, so a line that holds the query as written is found
    // with case folded too.
    assert_eq!(vec!["ΑΣ"], search("Σ", "ΑΣ"));
    assert_eq!(vec!["ΑΣ"], search_case_insensitive("Σ", "ΑΣ"));
    assert_eq!(vec!["ΑΣ"], search_case_insensitive("σ", "ΑΣ"));
    assert_eq!("ασ", fold_case("ΑΣ"));
}

#[test]
fn folded_search_returns_lines_as_written() {
    let contents = "Pick THREE.\nPick two.";
    assert_eq!(vec!["Pick THREE."], search_case_insensitive("three", contents));
    assert_eq!(vec!["Pick THREE."], search_case_insensitive("ThReE", contents));
}

#[test]
fn fold_case_lowers_each_character() {
    assert_eq!("three", fold_case("THReE"));
    assert_eq!("привет, мир! ⛵", fold_case("Привет, МИР! ⛵"));
    assert_eq!("", fold_case(""));
    assert_eq!("already low 123", fold_case("already low 123"));
}

#[test]
fn fold_case_may_lengthen_the_text() {
    // One capital letter whose lowercase mapping is two characters.
    assert_eq!("i\u{307}", fold_case("\u{130}"));
    assert_eq!("ai\u{307}b", fold_case("A\u{130}B"));
    assert_eq!(vec!["x\u{130}y"], search_case_insensitive("I\u{307}Y", "x\u{130}y\nxiy"));
}

#[test]
fn filter_lines_follows_the_mode() {
    let contents = "Rust:\nsafe, fast, productive.\nPick three.\nTrust me.";
    assert_eq!(vec!["Trust me."], filter_lines("rust", contents, true));
    assert_eq!(vec!["Rust:", "Trust me."], filter_lines("rust", contents, false));
    assert_eq!(search("duct", contents), filter_lines("duct", contents, true));
    assert_eq!(search_case_insensitive("DUCT", contents), filter_lines("DUCT", contents, false));
}

#[test]
fn keep_if_found_adds_the_line_where_the_key_holds_the_needle() {
    let mut found = vec!["earlier"];
    keep_if_found(&mut found, "Hello, World", "hello, world", "o, w");
    assert_eq!(vec!["earlier", "Hello, World"], found);
    keep_if_found(&mut found, "Hello, World", "hello, world", "O, W");
    assert_eq!(vec!["earlier", "Hello, World"], found);
    keep_if_found(&mut found, "", "", "");
    assert_eq!(vec!["earlier", "Hello, World", ""], found);
    keep_if_found(&mut found, "line", "key", "line");
    assert_eq!(vec!["earlier", "Hello, World", ""], found);
}
