use my_rust_course::myrust::{my_flow, my_rust, my_test_fun, MyPrint, TestFunction, DATA_DIVIDEND};

fn title() -> String {
    let rule = "=".repeat(120);
    format!("{}\nMy Rust Course\n{}\n", rule, rule)
}

const FERRIS: &str = r#"
                _~^~^~_
            \) /  o o  \ (/
              '_   -   _'
              / '-----' \
    "#;

fn greeting(func: &str, name: &str) -> String {
    format!(
        "\n         < Hello, {} and {}! >\n                \\\n                 \\{}\n",
        func, name, FERRIS
    )
}

fn f32_line() -> String {
    let d2 = 3.0;
    format!("{} / (f32) {:.2} = {}", DATA_DIVIDEND, d2, DATA_DIVIDEND as f32 / d2)
}

/// The data demo's text, written out with std formatting.
fn expected_data(f32_line: &str) -> String {
    let mut o = String::new();
    o += "=== int data type ===\n13 + 24 = 37\n13 / (int32) 3 = 4\n";
    o += f32_line;
    o += "\n";
    for x in [7, 6, 5, 4, 3, 2, 1, 0] {
        o += &format!("{} ", x);
    }
    o += "\n=== Tuple ===\n5 hello 3 \n \nDestruct tuple\n5 hello 3 \n\n";
    o += "======== Heap ========\n=== Vec ===\n👉 for i\n";
    o += "0:11 1:22 2:33 3:44 4:55 ";
    o += "\n👉 for get\n0:11 1:22 2:33 3:44 4:55 5:outbound! ";
    o += "\n👉 for in vec\n11 22 33 44 55 ";
    o += "\n👉 iter in vec\n11 22 33 44 55\n👉 push and pop vec\n";
    o += "11 22 33 44 55 66 77 \n";
    o += "pop 0:77 pop 1:66 pop 2:55 pop 3:44 pop 4:33 pop 5:22 pop 6:11 pop 7:-1 ";
    o += "\n=== String ===\nInitial string: Hello\nAfter push chars: Hello world\n";
    o += "After push str: Hello world!!!\nChars:\n";
    for c in "Hello world!!!".chars() {
        o += &format!("{} ", c);
    }
    o += "\nBytes:\n";
    for b in "Hello world!!!".bytes() {
        o += &format!("{} ", b);
    }
    o += "\n";
    o += &format!("Vec<u8>: {:?}\n", "Hello world!!!".as_bytes().to_vec());
    o += "After append s2: Hello world!!! Rust\nAfter pop: Hello world!!! Rus\n";
    o += "After truncate(5): Hello\nAfter clear: \n";
    o += "\n=== Box List ===\nList: 0 List: 1 List: 2 List: 3  End \n";
    o
}

#[test]
fn print_collects_pieces() {
    let mut p = MyPrint::new();
    assert_eq!(p.get(), "");
    p.print("ab");
    p.print('c');
    p.print(String::from("de"));
    p.print_line("f");
    let s = String::from("g");
    p.print_line(&s);
    assert_eq!(p.get(), "abcdef\ng\n");
    assert_eq!(p.flush(), "abcdef\ng\n");
}

#[test]
fn reset_forgets_output() {
    let mut p = MyPrint::new();
    p.print_line("line");
    p.reset();
    assert_eq!(p.get(), "");
    p.print('x');
    assert_eq!(p.flush(), "x");
}

#[test]
fn table_of_demos() {
    let t = my_test_fun();
    assert_eq!(t.len(), 3);
    assert_eq!(t[0].name, "Clear");
    assert_eq!(t[0].func, TestFunction::Clear);
    assert_eq!(t[1].name, "Data");
    assert_eq!(t[1].func, TestFunction::Data);
    assert_eq!(t[2].name, "Flow");
    assert_eq!(t[2].func, TestFunction::Flow);
}

#[test]
fn clear_prints_nothing() {
    assert_eq!(my_rust("Clear", "anything", &f32_line()), "");
}

#[test]
fn flow_demo_text() {
    let mut want = title();
    want += "=== loop ===\n";
    for i in 1..=9 {
        want += &format!("loop: {}. ", i);
    }
    want += "\n=== while ===\n";
    for i in 1..=8 {
        want += &format!("while: {}. ", i);
    }
    want += "\n=== for ===\n";
    for i in 0..8 {
        want += &format!("for: {}. ", i);
    }
    want += "\n=== match ===\nMatch: Yes\nMatch: if if f == Yes\n";
    assert_eq!(my_rust("Flow", "x", &f32_line()), want);
}

#[test]
fn data_demo_text() {
    let line = f32_line();
    assert_eq!(line, "13 / (f32) 3.00 = 4.3333335");
    let want = title() + &expected_data(&line);
    assert_eq!(my_rust("Data", "", &line), want);
}

#[test]
fn data_demo_prints_the_given_division_line() {
    let out = my_rust("Data", "", "DIVISION");
    assert!(out.contains("13 / (int32) 3 = 4\nDIVISION\n7 6 5"));
}

#[test]
fn ferris_greets_the_name() {
    let want = title() + &greeting("ferris", "Crab");
    assert_eq!(my_rust("ferris", "Crab", &f32_line()), want);
    let want = title() + &greeting("rust", "Rustaceans");
    assert_eq!(my_rust("rust", "", &f32_line()), want);
}

#[test]
fn unknown_function_greets_rust_and_echoes() {
    let want = title() + &greeting("Rust", "Rustaceans") + "<Rust> <Rustaceans>";
    assert_eq!(my_rust("Rust", "Rustaceans", &f32_line()), want);
    let want = title() + &greeting("Rust", "Rustaceans") + "<hello> <>";
    assert_eq!(my_rust("hello", "", &f32_line()), want);
    let want = title() + &greeting("Rust", "you") + "<> <you>";
    assert_eq!(my_rust("", "you", &f32_line()), want);
}

#[test]
fn names_are_case_sensitive() {
    // "clear" is not "Clear": it greets instead of clearing
    let out = my_rust("clear", "x", &f32_line());
    assert!(out.starts_with(&title()));
    assert!(out.ends_with("<clear> <x>"));
}

#[test]
fn every_demo_but_clear_starts_with_the_title() {
    for f in ["Data", "Flow", "ferris", "rust", "other", ""] {
        assert!(my_rust(f, "d", &f32_line()).starts_with(&title()));
    }
}

#[test]
fn flow_appends_the_same_text() {
    let mut fresh = MyPrint::new();
    my_flow(&mut fresh);
    let flow = fresh.flush();
    let mut p = MyPrint::new();
    p.print("earlier ");
    my_flow(&mut p);
    assert_eq!(p.flush(), format!("earlier {}", flow));
}
