//! The printer that collects output, and the demo functions of the course.
use vstd::prelude::*;
use crate::text::{
    dec, dec_all, debug_list, debug_u8s, decimal, ints_u8, join, join_spaced, line, push_dec,
    str_equal, widen_i32,
};

verus! {

/// A value that can be printed: it turns into a `String` whose characters
/// are its `text_view`.
pub trait PrintText: Sized {
    spec fn text_view(&self) -> Seq<char>;

    fn into_text(self) -> (r: String)
        ensures
            r@ == self.text_view(),
    ;
}

impl<'a> PrintText for &'a str {
    open spec fn text_view(&self) -> Seq<char> {
        (*self)@
    }

    fn into_text(self) -> (r: String) {
        self.to_owned()
    }
}

impl PrintText for String {
    open spec fn text_view(&self) -> Seq<char> {
        self@
    }

    fn into_text(self) -> (r: String) {
        self
    }
}

impl<'a> PrintText for &'a String {
    open spec fn text_view(&self) -> Seq<char> {
        (*self)@
    }

    fn into_text(self) -> (r: String) {
        self.clone()
    }
}

impl PrintText for char {
    open spec fn text_view(&self) -> Seq<char> {
        seq![*self]
    }

    fn into_text(self) -> (r: String) {
        let mut s = String::new();
        s.push(self);
        s
    }
}

/// Collects printed pieces; `get` and `flush` give them back joined.
pub struct MyPrint {
    input: Vec<String>,
    output: Vec<String>,
}

impl MyPrint {
    /// The pieces printed so far, in order.
    pub closed spec fn chunks(&self) -> Seq<Seq<char>> {
        self.output@.map_values(|s: String| s@)
    }

    /// The values stacked on the input side, last pushed last.
    pub closed spec fn inputs(&self) -> Seq<Seq<char>> {
        self.input@.map_values(|s: String| s@)
    }

    /// Everything printed so far, as one text.
    pub open spec fn text(&self) -> Seq<char> {
        self.chunks().flatten()
    }

    /// A printer with nothing printed and no input.
    pub fn new() -> (r: Self)
        ensures
            r.chunks() == Seq::<Seq<char>>::empty(),
            r.inputs() == Seq::<Seq<char>>::empty(),
    {
        let r = MyPrint { input: Vec::new(), output: Vec::new() };
        assert(r.chunks() =~= Seq::<Seq<char>>::empty());
        assert(r.inputs() =~= Seq::<Seq<char>>::empty());
        r
    }

    /// Everything printed so far, joined into one string.
    pub fn get(&self) -> (r: String)
        ensures
            r@ == self.text(),
    {
        let mut r = String::new();
        let n = self.output.len();
        let mut i: usize = 0;
        while i < n
            invariant
                i <= n,
                n == self.output@.len(),
                r@ == self.chunks().take(i as int).flatten(),
            decreases n - i,
        {
            r.append(self.output[i].as_str());
            proof {
                let c = self.chunks();
                assert(c.take(i + 1) =~= c.take(i as int).push(c[i as int]));
                c.take(i as int).lemma_flatten_push(c[i as int]);
            }
            i = i + 1;
        }
        assert(self.chunks().take(n as int) =~= self.chunks());
        r
    }

    /// Everything printed, joined into one string; the printer is used up.
    pub fn flush(self) -> (r: String)
        ensures
            r@ == self.text(),
    {
        self.get()
    }

    /// Forgets everything printed and all input.
    pub fn reset(&mut self)
        ensures
            final(self).chunks() == Seq::<Seq<char>>::empty(),
            final(self).inputs() == Seq::<Seq<char>>::empty(),
    {
        self.input.clear();
        self.output.clear();
        assert(self.chunks() =~= Seq::<Seq<char>>::empty());
        assert(self.inputs() =~= Seq::<Seq<char>>::empty());
    }

    /// Prints `s` followed by a newline, as one piece.
    pub fn print_line<S: PrintText>(&mut self, s: S)
        ensures
            final(self).chunks() == old(self).chunks().push(line(s.text_view())),
            final(self).text() == old(self).text() + line(s.text_view()),
            final(self).inputs() == old(self).inputs(),
    {
        let mut l = s.into_text();
        l.push('\n');
        self.output.push(l);
        assert(self.chunks() =~= old(self).chunks().push(line(s.text_view())));
        proof {
            old(self).chunks().lemma_flatten_push(line(s.text_view()));
        }
        assert(self.inputs() =~= old(self).inputs());
    }

    /// Prints `s` as one piece.
    pub fn print<S: PrintText>(&mut self, s: S)
        ensures
            final(self).chunks() == old(self).chunks().push(s.text_view()),
            final(self).text() == old(self).text() + s.text_view(),
            final(self).inputs() == old(self).inputs(),
    {
        let piece = s.into_text();
        self.output.push(piece);
        assert(self.chunks() =~= old(self).chunks().push(s.text_view()));
        proof {
            old(self).chunks().lemma_flatten_push(s.text_view());
        }
        assert(self.inputs() =~= old(self).inputs());
    }

    fn push_input(&mut self, s: String)
        ensures
            final(self).chunks() == old(self).chunks(),
            final(self).inputs() == old(self).inputs().push(s@),
    {
        self.input.push(s);
        assert(self.chunks() =~= old(self).chunks());
        assert(self.inputs() =~= old(self).inputs().push(s@));
    }

    fn pop_input(&mut self) -> (r: Option<String>)
        ensures
            final(self).chunks() == old(self).chunks(),
            old(self).inputs().len() == 0 ==> r is None && final(self).inputs() == old(
                self,
            ).inputs(),
            old(self).inputs().len() > 0 ==> r is Some && r->0@ == old(self).inputs().last()
                && final(self).inputs() == old(self).inputs().drop_last(),
    {
        let r = self.input.pop();
        assert(self.chunks() =~= old(self).chunks());
        assert(old(self).inputs().len() > 0 ==> self.inputs() =~= old(self).inputs().drop_last());
        r
    }
}

// ---------------------------------------------------------------------
// Small printing helpers
// ---------------------------------------------------------------------

/// `prefix`, the decimal text of `n`, then `suffix`, as `format!` joins them.
fn dec_text(prefix: &str, n: i64, suffix: &str) -> (r: String)
    ensures
        r@ == prefix@ + dec(n as int) + suffix@,
{
    let mut s = prefix.to_owned();
    push_dec(&mut s, n);
    s.append(suffix);
    s
}

/// The decimal text of `n` followed by `suffix`.
fn dec_then(n: i64, suffix: &str) -> (r: String)
    ensures
        r@ == dec(n as int) + suffix@,
{
    let mut s = decimal(n);
    s.append(suffix);
    s
}

/// `a` then `b`, as one string.
fn concat2(a: &str, b: &str) -> (r: String)
    ensures
        r@ == a@ + b@,
{
    let mut s = a.to_owned();
    s.append(b);
    s
}

// ---------------------------------------------------------------------
// The title and the greeting
// ---------------------------------------------------------------------

/// A rule of 120 `=`, one piece each.
pub open spec fn rule_chunks() -> Seq<Seq<char>> {
    Seq::new(120, |i: int| seq!['='])
}

/// The course title that every run prints first.
pub open spec fn title_chunks() -> Seq<Seq<char>> {
    rule_chunks() + seq![line("\nMy Rust Course"@)] + rule_chunks() + seq![seq!['\n']]
}

fn print_rule(p: &mut MyPrint)
    ensures
        final(p).chunks() == old(p).chunks() + rule_chunks(),
        final(p).inputs() == old(p).inputs(),
{
    let mut i: usize = 0;
    while i < 120
        invariant
            i <= 120,
            p.chunks() == old(p).chunks() + Seq::new(i as nat, |k: int| seq!['=']),
            p.inputs() == old(p).inputs(),
        decreases 120 - i,
    {
        p.print('=');
        i = i + 1;
        assert(p.chunks() =~= old(p).chunks() + Seq::new(i as nat, |k: int| seq!['=']));
    }
}

fn print_title(p: &mut MyPrint)
    ensures
        final(p).chunks() == old(p).chunks() + title_chunks(),
        final(p).inputs() == old(p).inputs(),
{
    print_rule(p);
    p.print_line("\nMy Rust Course");
    print_rule(p);
    p.print('\n');
    assert(p.chunks() =~= old(p).chunks() + title_chunks());
}

/// The picture of Ferris the crab.
pub open spec fn ferris_art() -> Seq<char> {
    "\n                _~^~^~_\n            \\) /  o o  \\ (/\n              '_   -   _'\n              / '-----' \\\n    "@
}

/// The greeting: Ferris says hello to `func` and `name`.
pub open spec fn ferris_chunks(func: Seq<char>, name: Seq<char>) -> Seq<Seq<char>> {
    seq![
        seq!['\n'],
        line("         < Hello, "@ + func + " and "@ + name + "! >"@),
        line("                \\"@),
        "                 \\"@,
        line(ferris_art()),
    ]
}

/// The value popped from the input, or `default` when there is none.
pub open spec fn top_or(ins: Seq<Seq<char>>, default: Seq<char>) -> Seq<char> {
    if ins.len() > 0 {
        ins.last()
    } else {
        default
    }
}

/// The input after one pop.
pub open spec fn popped(ins: Seq<Seq<char>>) -> Seq<Seq<char>> {
    if ins.len() > 0 {
        ins.drop_last()
    } else {
        ins
    }
}

/// `s`, or `default` when `s` is empty.
pub open spec fn or_if_empty(s: Seq<char>, default: Seq<char>) -> Seq<char> {
    if s.len() == 0 {
        default
    } else {
        s
    }
}

/// Who Ferris greets first: the last input, `Rust` when it is empty.
pub open spec fn ferris_func(ins: Seq<Seq<char>>) -> Seq<char> {
    or_if_empty(top_or(ins, "Rustaceans"@), "Rust"@)
}

/// Who Ferris greets second: the input below it, `Rustaceans` when empty.
pub open spec fn ferris_name(ins: Seq<Seq<char>>) -> Seq<char> {
    or_if_empty(top_or(popped(ins), "Rustaceans"@), "Rustaceans"@)
}

fn pop_or_default(p: &mut MyPrint) -> (r: String)
    ensures
        r@ == top_or(old(p).inputs(), "Rustaceans"@),
        final(p).inputs() == popped(old(p).inputs()),
        final(p).chunks() == old(p).chunks(),
{
    match p.pop_input() {
        Some(s) => s,
        None => "Rustaceans".to_owned(),
    }
}

/// Ferris greets the two values on top of the input and takes them off.
fn my_ferris(print_out: &mut MyPrint)
    ensures
        final(print_out).chunks() == old(print_out).chunks() + ferris_chunks(
            ferris_func(old(print_out).inputs()),
            ferris_name(old(print_out).inputs()),
        ),
        final(print_out).inputs() == popped(popped(old(print_out).inputs())),
{
    let mut func = pop_or_default(print_out);
    if func.as_str().is_empty() {
        func = "Rust".to_owned();
    }
    let mut name = pop_or_default(print_out);
    if name.as_str().is_empty() {
        name = "Rustaceans".to_owned();
    }
    let ferris = "\n                _~^~^~_\n            \\) /  o o  \\ (/\n              '_   -   _'\n              / '-----' \\\n    ";
    print_out.print('\n');
    let mut hello = "         < Hello, ".to_owned();
    hello.append(func.as_str());
    hello.append(" and ");
    hello.append(name.as_str());
    hello.append("! >");
    print_out.print_line(hello);
    print_out.print_line("                \\");
    print_out.print("                 \\");
    print_out.print_line(ferris);
    assert(print_out.chunks() =~= old(print_out).chunks() + ferris_chunks(
        ferris_func(old(print_out).inputs()),
        ferris_name(old(print_out).inputs()),
    ));
}

/// Forgets all output and input.
fn my_clear(print_out: &mut MyPrint)
    ensures
        final(print_out).chunks() == Seq::<Seq<char>>::empty(),
        final(print_out).inputs() == Seq::<Seq<char>>::empty(),
{
    print_out.reset();
}


// ---------------------------------------------------------------------
// Data types
// ---------------------------------------------------------------------

/// The `i32` that the data-type demo adds to and divides.
pub const DATA_DIVIDEND: i32 = 13;

/// Integers: a sum, an integer division, and the `f32` division line,
/// which the caller formats (`f32_line`).
pub open spec fn int_chunks(f32_line: Seq<char>) -> Seq<Seq<char>> {
    seq![
        line("=== int data type ==="@),
        line(dec(13) + " + "@ + dec(24) + " = "@ + dec(37)),
        line(dec(13) + " / (int32) "@ + dec(3) + " = "@ + dec(4)),
        line(f32_line),
    ]
}

/// The array `[7, 6, 5, 4, 3, 2, 1, 0]`, each number then a space.
pub open spec fn array_chunks() -> Seq<Seq<char>> {
    Seq::new(8, |i: int| dec(7 - i) + " "@)
}

/// The tuple `(5, "hello", 3, '\n')`, field by field, then destructured.
pub open spec fn tuple_chunks() -> Seq<Seq<char>> {
    seq![
        line("\n=== Tuple ==="@),
        dec(5) + " "@,
        "hello"@ + " "@,
        dec(3) + " "@,
        seq!['\n'] + " "@,
        line("\nDestruct tuple"@),
        line(dec(5) + " "@ + "hello"@ + " "@ + dec(3) + " "@ + seq!['\n']),
    ]
}

/// The vector of the demo.
pub open spec fn demo_vec() -> Seq<int> {
    seq![11, 22, 33, 44, 55]
}

/// The vector after pushing 66 and 77.
pub open spec fn demo_vec_pushed() -> Seq<int> {
    demo_vec() + seq![66, 77]
}

/// `index:value ` for each element.
pub open spec fn indexed_chunks(v: Seq<int>) -> Seq<Seq<char>> {
    Seq::new(v.len(), |i: int| dec(i) + ":"@ + dec(v[i]) + " "@)
}

/// Each element then a space.
pub open spec fn spaced_chunks(v: Seq<int>) -> Seq<Seq<char>> {
    Seq::new(v.len(), |i: int| dec(v[i]) + " "@)
}

/// What `get` finds at indices `0..=len`: the element, then `outbound!`.
pub open spec fn get_chunks(v: Seq<int>) -> Seq<Seq<char>> {
    Seq::new(
        v.len() + 1,
        |i: int|
            if i < v.len() {
                dec(i) + ":"@ + dec(v[i]) + " "@
            } else {
                dec(i) + ":outbound! "@
            },
    )
}

/// Popping `len + 1` times: the elements from the back, then `-1`.
pub open spec fn pop_chunks(v: Seq<int>) -> Seq<Seq<char>> {
    Seq::new(
        v.len() + 1,
        |i: int|
            "pop "@ + dec(i) + ":"@ + dec(
                if i < v.len() {
                    v[v.len() - 1 - i]
                } else {
                    -1
                },
            ) + " "@,
    )
}

/// The heap part: the vector demo.
pub open spec fn vec_chunks() -> Seq<Seq<char>> {
    seq![line("======== Heap ========"@), line("=== Vec ==="@), line("👉 for i"@)]
        + indexed_chunks(demo_vec()) + seq![line("\n👉 for get"@)] + get_chunks(demo_vec())
        + seq![line("\n👉 for in vec"@)] + spaced_chunks(demo_vec()) + seq![
        line("\n👉 iter in vec"@),
        line(join(dec_all(demo_vec()), seq![' '])),
        line("👉 push and pop vec"@),
    ] + spaced_chunks(demo_vec_pushed()) + seq![seq!['\n']] + pop_chunks(demo_vec_pushed())
}

fn print_ints(print_out: &mut MyPrint, f32_line: &str)
    ensures
        final(print_out).chunks() == old(print_out).chunks() + int_chunks(f32_line@),
        final(print_out).inputs() == old(print_out).inputs(),
{
    print_out.print_line("=== int data type ===");
    let d1: i32 = DATA_DIVIDEND;
    let mut d2: i32 = 24;
    let mut res = d1 + d2;
    let mut t = decimal(d1 as i64);
    t.append(" + ");
    push_dec(&mut t, d2 as i64);
    t.append(" = ");
    push_dec(&mut t, res as i64);
    print_out.print_line(t);
    d2 = 3;
    res = d1 / d2;
    let mut t = decimal(d1 as i64);
    t.append(" / (int32) ");
    push_dec(&mut t, d2 as i64);
    t.append(" = ");
    push_dec(&mut t, res as i64);
    print_out.print_line(t);
    print_out.print_line(f32_line);
    assert(print_out.chunks() =~= old(print_out).chunks() + int_chunks(f32_line@));
}

fn print_array(print_out: &mut MyPrint)
    ensures
        final(print_out).chunks() == old(print_out).chunks() + array_chunks(),
        final(print_out).inputs() == old(print_out).inputs(),
{
    let my_array: [i32; 8] = [7, 6, 5, 4, 3, 2, 1, 0];
    let mut i: usize = 0;
    while i <= 7
        invariant
            i <= 8,
            my_array@ == seq![7i32, 6, 5, 4, 3, 2, 1, 0],
            print_out.chunks() == old(print_out).chunks() + array_chunks().take(i as int),
            print_out.inputs() == old(print_out).inputs(),
        decreases 8 - i,
    {
        print_out.print(dec_then(my_array[i] as i64, " "));
        i = i + 1;
        assert(print_out.chunks() =~= old(print_out).chunks() + array_chunks().take(i as int));
    }
    assert(array_chunks().take(8) =~= array_chunks());
}

fn print_tuple(print_out: &mut MyPrint)
    ensures
        final(print_out).chunks() == old(print_out).chunks() + tuple_chunks(),
        final(print_out).inputs() == old(print_out).inputs(),
{
    let my_tuple = (5i32, "hello", 3i32, '\n');
    print_out.print_line("\n=== Tuple ===");
    print_out.print(dec_then(my_tuple.0 as i64, " "));
    print_out.print(concat2(my_tuple.1, " "));
    print_out.print(dec_then(my_tuple.2 as i64, " "));
    let mut t = String::new();
    t.push(my_tuple.3);
    t.append(" ");
    assert(t@ =~= seq!['\n'] + " "@);
    print_out.print(t);
    print_out.print_line("\nDestruct tuple");
    let (a, b, c, d) = my_tuple;
    let mut t = decimal(a as i64);
    t.append(" ");
    t.append(b);
    t.append(" ");
    push_dec(&mut t, c as i64);
    t.append(" ");
    t.push(d);
    assert(t@ =~= dec(5) + " "@ + "hello"@ + " "@ + dec(3) + " "@ + seq!['\n']);
    print_out.print_line(t);
    assert(print_out.chunks() =~= old(print_out).chunks() + tuple_chunks());
}

/// `index:value ` as one piece.
fn index_text(i: usize, v: i64) -> (r: String)
    requires
        i <= i64::MAX,
    ensures
        r@ == dec(i as int) + ":"@ + dec(v as int) + " "@,
{
    let mut t = decimal(i as i64);
    t.append(":");
    push_dec(&mut t, v);
    t.append(" ");
    t
}

fn print_vec(print_out: &mut MyPrint)
    ensures
        final(print_out).chunks() == old(print_out).chunks() + vec_chunks(),
        final(print_out).inputs() == old(print_out).inputs(),
{
    let ghost start = print_out.chunks();
    print_out.print_line("======== Heap ========");
    print_out.print_line("=== Vec ===");
    print_out.print_line("👉 for i");
    let ghost c0 = print_out.chunks();
    let mut v: Vec<i32> = Vec::new();
    v.push(11);
    v.push(22);
    v.push(33);
    v.push(44);
    v.push(55);
    assert(v@ =~= seq![11i32, 22, 33, 44, 55]);
    let n = v.len();
    let mut i: usize = 0;
    while i < n
        invariant
            i <= n,
            n == 5,
            v@ == seq![11i32, 22, 33, 44, 55],
            print_out.chunks() == c0 + indexed_chunks(demo_vec()).take(i as int),
            print_out.inputs() == old(print_out).inputs(),
        decreases n - i,
    {
        print_out.print(index_text(i, v[i] as i64));
        i = i + 1;
        assert(print_out.chunks() =~= c0 + indexed_chunks(demo_vec()).take(i as int));
    }
    assert(indexed_chunks(demo_vec()).take(5) =~= indexed_chunks(demo_vec()));
    print_out.print_line("\n👉 for get");
    let ghost c1 = print_out.chunks();
    let mut i: usize = 0;
    while i <= n
        invariant
            i <= n + 1,
            n == 5,
            v@ == seq![11i32, 22, 33, 44, 55],
            print_out.chunks() == c1 + get_chunks(demo_vec()).take(i as int),
            print_out.inputs() == old(print_out).inputs(),
        decreases n + 1 - i,
    {
        if i < v.len() {
            print_out.print(index_text(i, v[i] as i64));
        } else {
            print_out.print(dec_then(i as i64, ":outbound! "));
        }
        i = i + 1;
        assert(print_out.chunks() =~= c1 + get_chunks(demo_vec()).take(i as int));
    }
    assert(get_chunks(demo_vec()).take(6) =~= get_chunks(demo_vec()));
    print_out.print_line("\n👉 for in vec");
    let ghost c2 = print_out.chunks();
    let mut i: usize = 0;
    while i < n
        invariant
            i <= n,
            n == 5,
            v@ == seq![11i32, 22, 33, 44, 55],
            print_out.chunks() == c2 + spaced_chunks(demo_vec()).take(i as int),
            print_out.inputs() == old(print_out).inputs(),
        decreases n - i,
    {
        print_out.print(dec_then(v[i] as i64, " "));
        i = i + 1;
        assert(print_out.chunks() =~= c2 + spaced_chunks(demo_vec()).take(i as int));
    }
    assert(spaced_chunks(demo_vec()).take(5) =~= spaced_chunks(demo_vec()));
    print_out.print_line("\n👉 iter in vec");
    let wide = widen_i32(&v);
    let s = join_spaced(&wide);
    assert(Seq::new(wide@.len(), |i: int| wide@[i] as int) =~= demo_vec());
    print_out.print_line(&s);
    print_out.print_line("👉 push and pop vec");
    v.push(66);
    v.push(77);
    let ghost c3 = print_out.chunks();
    let n = v.len();
    let mut i: usize = 0;
    while i < n
        invariant
            i <= n,
            n == 7,
            v@ == seq![11i32, 22, 33, 44, 55, 66, 77],
            print_out.chunks() == c3 + spaced_chunks(demo_vec_pushed()).take(i as int),
            print_out.inputs() == old(print_out).inputs(),
        decreases n - i,
    {
        print_out.print(dec_then(v[i] as i64, " "));
        i = i + 1;
        assert(print_out.chunks() =~= c3 + spaced_chunks(demo_vec_pushed()).take(i as int));
    }
    assert(spaced_chunks(demo_vec_pushed()).take(7) =~= spaced_chunks(demo_vec_pushed()));
    print_out.print('\n');
    let ghost c4 = print_out.chunks();
    let mut i: usize = 0;
    while i <= n
        invariant
            i <= n + 1,
            n == 7,
            v@ == seq![11i32, 22, 33, 44, 55, 66, 77].take(if i <= 7 { 7 - i } else { 0 }),
            print_out.chunks() == c4 + pop_chunks(demo_vec_pushed()).take(i as int),
            print_out.inputs() == old(print_out).inputs(),
        decreases n + 1 - i,
    {
        let d = match v.pop() {
            Some(x) => x,
            None => -1,
        };
        let mut t = "pop ".to_owned();
        push_dec(&mut t, i as i64);
        t.append(":");
        push_dec(&mut t, d as i64);
        t.append(" ");
        print_out.print(t);
        i = i + 1;
        assert(print_out.chunks() =~= c4 + pop_chunks(demo_vec_pushed()).take(i as int));
        assert(v@ =~= seq![11i32, 22, 33, 44, 55, 66, 77].take(if i <= 7 { 7 - i } else { 0 }));
    }
    assert(pop_chunks(demo_vec_pushed()).take(8) =~= pop_chunks(demo_vec_pushed()));
    assert(print_out.chunks() =~= start + vec_chunks());
}

/// `Hello` after pushing the characters of ` world`.
pub open spec fn hello_world() -> Seq<char> {
    "Hello"@ + seq![' ', 'w', 'o', 'r', 'l', 'd']
}

/// `Hello world` after pushing `!!!`.
pub open spec fn hello_world_bang() -> Seq<char> {
    hello_world() + "!!!"@
}

/// Each character then a space.
pub open spec fn char_chunks(s: Seq<char>) -> Seq<Seq<char>> {
    Seq::new(s.len(), |i: int| seq![s[i]] + " "@)
}

/// Each byte in decimal then a space.
pub open spec fn byte_chunks(b: Seq<u8>) -> Seq<Seq<char>> {
    Seq::new(b.len(), |i: int| dec(b[i] as int) + " "@)
}

/// The `String` demo: pushing, iterating characters and UTF-8 bytes,
/// appending, popping, truncating and clearing.
pub open spec fn string_chunks() -> Seq<Seq<char>> {
    let s2 = hello_world_bang();
    let b = vstd::utf8::encode_utf8(s2);
    let s3 = s2 + " Rust"@;
    let s4 = s3.drop_last();
    let s5 = s4.take(5);
    seq![
        line("\n=== String ==="@),
        line("Initial string: "@ + "Hello"@),
        line("After push chars: "@ + hello_world()),
        line("After push str: "@ + s2),
        line("Chars:"@),
    ] + char_chunks(s2) + seq![seq!['\n'], line("Bytes:"@)] + byte_chunks(b) + seq![
        seq!['\n'],
        line("Vec<u8>: "@ + debug_list(ints_u8(b))),
        line("After append s2: "@ + s3),
        line("After pop: "@ + s4),
        line("After truncate(5): "@ + s5),
        line("After clear: "@ + Seq::<char>::empty()),
    ]
}

fn print_string(print_out: &mut MyPrint)
    ensures
        final(print_out).chunks() == old(print_out).chunks() + string_chunks(),
        final(print_out).inputs() == old(print_out).inputs(),
{
    let ghost start = print_out.chunks();
    print_out.print_line("\n=== String ===");
    let mut s = String::from_str("Hello");
    print_out.print_line(concat2("Initial string: ", s.as_str()));
    s.push(' ');
    s.push('w');
    s.push('o');
    s.push('r');
    s.push('l');
    s.push('d');
    assert(s@ =~= hello_world());
    print_out.print_line(concat2("After push chars: ", s.as_str()));
    s.append("!!!");
    print_out.print_line(concat2("After push str: ", s.as_str()));
    print_out.print_line("Chars:");
    let ghost c0 = print_out.chunks();
    let cs = chars_of_string(&s);
    let n = cs.len();
    let mut i: usize = 0;
    while i < n
        invariant
            i <= n,
            n == cs@.len(),
            cs@ == hello_world_bang(),
            print_out.chunks() == c0 + char_chunks(cs@).take(i as int),
            print_out.inputs() == old(print_out).inputs(),
        decreases n - i,
    {
        let mut t = String::new();
        t.push(cs[i]);
        t.append(" ");
        assert(t@ =~= seq![cs@[i as int]] + " "@);
        print_out.print(t);
        i = i + 1;
        assert(print_out.chunks() =~= c0 + char_chunks(cs@).take(i as int));
    }
    assert(char_chunks(cs@).take(n as int) =~= char_chunks(cs@));
    print_out.print('\n');
    print_out.print_line("Bytes:");
    let ghost c1 = print_out.chunks();
    let bytes = s.as_str().as_bytes();
    let n = bytes.len();
    let mut i: usize = 0;
    while i < n
        invariant
            i <= n,
            n == bytes@.len(),
            bytes@ == vstd::utf8::encode_utf8(hello_world_bang()),
            print_out.chunks() == c1 + byte_chunks(bytes@).take(i as int),
            print_out.inputs() == old(print_out).inputs(),
        decreases n - i,
    {
        print_out.print(dec_then(bytes[i] as i64, " "));
        i = i + 1;
        assert(print_out.chunks() =~= c1 + byte_chunks(bytes@).take(i as int));
    }
    assert(byte_chunks(bytes@).take(n as int) =~= byte_chunks(bytes@));
    print_out.print('\n');
    let copy = s.clone();
    let v: Vec<u8> = copy.as_str().as_bytes_vec();
    print_out.print_line(concat2("Vec<u8>: ", debug_u8s(&v).as_str()));
    let s2 = String::from_str(" Rust");
    s.append(s2.as_str());
    print_out.print_line(concat2("After append s2: ", s.as_str()));
    proof {
        reveal_strlit(" Rust");
    }
    s.pop();
    print_out.print_line(concat2("After pop: ", s.as_str()));
    proof {
        reveal_strlit("Hello");
        reveal_strlit("!!!");
        assert(vstd::utf8::is_ascii_chars(s@));
    }
    s.truncate(5);
    print_out.print_line(concat2("After truncate(5): ", s.as_str()));
    s.clear();
    print_out.print_line(concat2("After clear: ", s.as_str()));
    assert(print_out.chunks() =~= start + string_chunks());
}

/// The characters of a `String`, in order.
fn chars_of_string(s: &String) -> (r: Vec<char>)
    ensures
        r@ == s@,
{
    crate::text::chars_of(s.as_str())
}

// ---------------------------------------------------------------------
// A linked list in boxes
// ---------------------------------------------------------------------

/// A singly linked list of `i32` whose nodes own the rest of the list.
pub enum MyBoxList {
    ListNode(i32, Box<MyBoxList>),
    End,
}

impl MyBoxList {
    /// The values from the front to the end.
    pub open spec fn values(&self) -> Seq<int>
        decreases self,
    {
        match self {
            MyBoxList::ListNode(v, next) => seq![*v as int] + next.values(),
            MyBoxList::End => Seq::empty(),
        }
    }
}

/// Puts `node` after the first node of `list` in place of what followed it.
fn set_next(list: &mut MyBoxList, node: MyBoxList)
    ensures
        *old(list) is ListNode ==> final(list).values() == seq![old(list).values()[0]]
            + node.values(),
        *old(list) is End ==> final(list).values() == old(list).values(),
{
    let mut cur = MyBoxList::End;
    std::mem::swap(&mut cur, list);
    match cur {
        MyBoxList::ListNode(v, _) => {
            *list = MyBoxList::ListNode(v, Box::new(node));
        },
        MyBoxList::End => {
            *list = MyBoxList::End;
        },
    }
}

/// Links `node` in at the end of `list`.
fn append_node(list: &mut MyBoxList, node: MyBoxList)
    ensures
        final(list).values() == old(list).values() + node.values(),
    decreases *old(list),
{
    let mut cur = MyBoxList::End;
    std::mem::swap(&mut cur, list);
    match cur {
        MyBoxList::ListNode(v, mut next) => {
            append_node(&mut *next, node);
            *list = MyBoxList::ListNode(v, next);
            assert(list.values() =~= old(list).values() + node.values());
        },
        MyBoxList::End => {
            *list = node;
            assert(list.values() =~= old(list).values() + node.values());
        },
    }
}

/// `List: value ` for each value.
pub open spec fn list_chunks(values: Seq<int>) -> Seq<Seq<char>> {
    Seq::new(values.len(), |i: int| "List: "@ + dec(values[i]) + " "@)
}

fn print_list(list: &MyBoxList, print_out: &mut MyPrint)
    ensures
        final(print_out).chunks() == old(print_out).chunks() + list_chunks(list.values()),
        final(print_out).inputs() == old(print_out).inputs(),
    decreases list,
{
    match list {
        MyBoxList::ListNode(v, next) => {
            print_out.print(dec_text("List: ", *v as i64, " "));
            print_list(next, print_out);
            assert(list_chunks(list.values()) =~= seq![list_chunks(list.values())[0]]
                + list_chunks(next.values()));
            assert(print_out.chunks() =~= old(print_out).chunks() + list_chunks(list.values()));
        },
        MyBoxList::End => {
            assert(print_out.chunks() =~= old(print_out).chunks() + list_chunks(list.values()));
        },
    }
}

/// The linked-list demo: the list 0, 1, 2, 3 built node by node.
pub open spec fn box_chunks() -> Seq<Seq<char>> {
    seq![line("\n=== Box List ==="@)] + list_chunks(seq![0, 1, 2, 3]) + seq![line(" End "@)]
}

fn print_box_list(print_out: &mut MyPrint)
    ensures
        final(print_out).chunks() == old(print_out).chunks() + box_chunks(),
        final(print_out).inputs() == old(print_out).inputs(),
{
    print_out.print_line("\n=== Box List ===");
    let mut my_list = MyBoxList::ListNode(0, Box::new(MyBoxList::End));
    // add a node after the first
    let a_node = MyBoxList::ListNode(1, Box::new(MyBoxList::End));
    set_next(&mut my_list, a_node);
    // append two more at the end
    let b_node = MyBoxList::ListNode(2, Box::new(MyBoxList::End));
    append_node(&mut my_list, b_node);
    let c_node = MyBoxList::ListNode(3, Box::new(MyBoxList::End));
    append_node(&mut my_list, c_node);
    proof {
        let e = MyBoxList::End;
        assert(e.values() =~= Seq::<int>::empty());
        assert(a_node.values() =~= seq![1int]);
        assert(b_node.values() =~= seq![2int]);
        assert(c_node.values() =~= seq![3int]);
    }
    assert(my_list.values() =~= seq![0int, 1, 2, 3]);
    print_list(&my_list, print_out);
    print_out.print_line(" End ");
    assert(print_out.chunks() =~= old(print_out).chunks() + box_chunks());
}

/// Everything the data-type demo prints; `f32_line` is the line of the
/// `f32` division, which the caller formats.
pub open spec fn data_chunks(f32_line: Seq<char>) -> Seq<Seq<char>> {
    int_chunks(f32_line) + array_chunks() + tuple_chunks() + vec_chunks() + string_chunks()
        + box_chunks()
}

/// The data-type demo: integers, arrays, tuples, vectors, strings and a
/// boxed list.
fn my_data(print_out: &mut MyPrint, f32_line: &str)
    ensures
        final(print_out).chunks() == old(print_out).chunks() + data_chunks(f32_line@),
        final(print_out).inputs() == old(print_out).inputs(),
{
    print_ints(print_out, f32_line);
    print_array(print_out);
    print_tuple(print_out);
    print_vec(print_out);
    print_string(print_out);
    print_box_list(print_out);
    assert(print_out.chunks() =~= old(print_out).chunks() + data_chunks(f32_line@));
}

// ---------------------------------------------------------------------
// Control flow
// ---------------------------------------------------------------------

/// Everything the control-flow demo prints: a `loop` that stops after 9,
/// a `while` up to 8, a `for` over `0..8`, and two matches on `"Yes"`.
pub open spec fn flow_chunks() -> Seq<Seq<char>> {
    seq![line("=== loop ==="@)] + Seq::new(9, |k: int| "loop: "@ + dec(k + 1) + ". "@) + seq![
        "\n"@,
        line("=== while ==="@),
    ] + Seq::new(8, |k: int| "while: "@ + dec(k + 1) + ". "@) + seq!["\n"@, line("=== for ==="@)]
        + Seq::new(8, |k: int| "for: "@ + dec(k) + ". "@) + seq![
        "\n"@,
        line("=== match ==="@),
        line("Match: Yes"@),
        line("Match: if if f == Yes"@),
    ]
}

/// The control-flow demo: appends the same text whatever was printed
/// before, and leaves the input alone.
pub fn my_flow(print_out: &mut MyPrint)
    ensures
        final(print_out).chunks() == old(print_out).chunks() + flow_chunks(),
        final(print_out).text() == old(print_out).text() + flow_chunks().flatten(),
        final(print_out).inputs() == old(print_out).inputs(),
{
    let ghost start = print_out.chunks();
    // loop
    print_out.print_line("=== loop ===");
    let ghost c0 = print_out.chunks();
    let mut i: i32 = 0;
    loop
        invariant_except_break
            0 <= i <= 8,
            print_out.chunks() == c0 + Seq::new(i as nat, |k: int| "loop: "@ + dec(k + 1) + ". "@),
            print_out.inputs() == old(print_out).inputs(),
        ensures
            print_out.chunks() == c0 + Seq::new(9, |k: int| "loop: "@ + dec(k + 1) + ". "@),
            print_out.inputs() == old(print_out).inputs(),
        decreases 9 - i,
    {
        i += 1;
        print_out.print(dec_text("loop: ", i as i64, ". "));
        assert(print_out.chunks() =~= c0 + Seq::new(
            i as nat,
            |k: int| "loop: "@ + dec(k + 1) + ". "@,
        ));
        if i > 8 {
            break;
        }
    }
    print_out.print("\n");
    // while
    print_out.print_line("=== while ===");
    let ghost c1 = print_out.chunks();
    i = 0;
    while i < 8
        invariant
            0 <= i <= 8,
            print_out.chunks() == c1 + Seq::new(i as nat, |k: int| "while: "@ + dec(k + 1) + ". "@),
            print_out.inputs() == old(print_out).inputs(),
        decreases 8 - i,
    {
        i += 1;
        print_out.print(dec_text("while: ", i as i64, ". "));
        assert(print_out.chunks() =~= c1 + Seq::new(
            i as nat,
            |k: int| "while: "@ + dec(k + 1) + ". "@,
        ));
    }
    print_out.print("\n");
    // for
    print_out.print_line("=== for ===");
    let ghost c2 = print_out.chunks();
    for i in 0..8i32
        invariant
            print_out.chunks() == c2 + Seq::new(i as nat, |k: int| "for: "@ + dec(k) + ". "@),
            print_out.inputs() == old(print_out).inputs(),
    {
        print_out.print(dec_text("for: ", i as i64, ". "));
        assert(print_out.chunks() =~= c2 + Seq::new(
            (i + 1) as nat,
            |k: int| "for: "@ + dec(k) + ". "@,
        ));
    }
    print_out.print("\n");
    // match
    print_out.print_line("=== match ===");
    let what_match = "Yes";
    if str_equal(what_match, "Yes") {
        print_out.print_line("Match: Yes");
    } else {
        print_out.print_line("Match: No");
    }
    let match_case: [&str; 2] = ["Yes", "No"];
    if str_equal(what_match, match_case[0]) {
        print_out.print_line("Match: if if f == Yes");
    } else {
        print_out.print_line("Match: if if f == No");
    }
    assert(print_out.chunks() =~= start + flow_chunks());
    proof {
        vstd::seq_lib::lemma_flatten_concat(start, flow_chunks());
    }
}

// ---------------------------------------------------------------------
// The function table and the entry point
// ---------------------------------------------------------------------

/// The demos that can be run by name.
#[derive(Clone, Copy, Debug, PartialEq, Eq, Structural)]
pub enum TestFunction {
    Clear,
    Data,
    Flow,
}

/// A demo and the name it is run by.
pub struct MyFunction {
    /// The name the demo is run by.
    pub name: &'static str,
    /// The demo.
    pub func: TestFunction,
}

/// The table of demos that run by name: `Clear`, `Data` and `Flow`.
pub fn my_test_fun() -> (r: Vec<MyFunction>)
    ensures
        r@.len() == 3,
        r@[0].name@ == "Clear"@ && r@[0].func == TestFunction::Clear,
        r@[1].name@ == "Data"@ && r@[1].func == TestFunction::Data,
        r@[2].name@ == "Flow"@ && r@[2].func == TestFunction::Flow,
{
    let mut r: Vec<MyFunction> = Vec::new();
    r.push(MyFunction { name: "Clear", func: TestFunction::Clear });
    r.push(MyFunction { name: "Data", func: TestFunction::Data });
    r.push(MyFunction { name: "Flow", func: TestFunction::Flow });
    r
}

impl MyFunction {
    /// Runs the demo on `print_out`; the `Data` demo prints `f32_line` as
    /// its `f32` division line.
    pub fn call(&self, print_out: &mut MyPrint, f32_line: &str)
        ensures
            self.func == TestFunction::Clear ==> final(print_out).chunks() == Seq::<
                Seq<char>,
            >::empty() && final(print_out).inputs() == Seq::<Seq<char>>::empty(),
            self.func == TestFunction::Data ==> final(print_out).chunks() == old(
                print_out,
            ).chunks() + data_chunks(f32_line@) && final(print_out).inputs() == old(
                print_out,
            ).inputs(),
            self.func == TestFunction::Flow ==> final(print_out).chunks() == old(
                print_out,
            ).chunks() + flow_chunks() && final(print_out).inputs() == old(print_out).inputs(),
    {
        match self.func {
            TestFunction::Clear => my_clear(print_out),
            TestFunction::Data => my_data(print_out, f32_line),
            TestFunction::Flow => my_flow(print_out),
        }
    }
}

/// What `my_rust` returns: the title, then what the named function prints.
/// `Clear` leaves nothing; `Data` and `Flow` run their demo; `ferris` and
/// `rust` greet that name and `data`; any other name greets `Rust` and
/// `data`, then repeats `<function> <data>`. An empty `data` is greeted as
/// `Rustaceans`.
pub open spec fn my_rust_text(function: Seq<char>, data: Seq<char>, f32_line: Seq<char>) -> Seq<
    char,
> {
    let name = or_if_empty(data, "Rustaceans"@);
    if function == "Clear"@ {
        Seq::empty()
    } else if function == "Data"@ {
        (title_chunks() + data_chunks(f32_line)).flatten()
    } else if function == "Flow"@ {
        (title_chunks() + flow_chunks()).flatten()
    } else if function == "ferris"@ || function == "rust"@ {
        (title_chunks() + ferris_chunks(function, name)).flatten()
    } else {
        (title_chunks() + ferris_chunks("Rust"@, name) + seq![
            seq!['<'] + function + seq!['>'],
            " "@,
            seq!['<'] + data + seq!['>'],
        ]).flatten()
    }
}

/// `<s>`, as `format!("<{}>", s)` writes it.
fn angle(s: &str) -> (r: String)
    ensures
        r@ == seq!['<'] + s@ + seq!['>'],
{
    let mut t = String::new();
    t.push('<');
    t.append(s);
    t.push('>');
    assert(t@ =~= seq!['<'] + s@ + seq!['>']);
    t
}

/// Runs the demo named `function` with `data` and returns all it printed.
/// `f32_line` is the `f32` division line of the `Data` demo, which the
/// caller formats.
pub fn my_rust(function: &str, data: &str, f32_line: &str) -> (r: String)
    ensures
        r@ == my_rust_text(function@, data@, f32_line@),
{
    let mut my_print = MyPrint::new();
    // set the input data
    my_print.push_input(data.to_owned());
    assert(my_print.inputs() =~= seq![data@]);
    // show the title
    print_title(&mut my_print);
    let ghost after_title = my_print.chunks();
    assert(after_title =~= title_chunks());
    // parser function
    let table = my_test_fun();
    let mut found: Option<usize> = None;
    let mut k: usize = 0;
    while k < table.len()
        invariant
            k <= table@.len(),
            table@.len() == 3,
            table@[0].name@ == "Clear"@ && table@[0].func == TestFunction::Clear,
            table@[1].name@ == "Data"@ && table@[1].func == TestFunction::Data,
            table@[2].name@ == "Flow"@ && table@[2].func == TestFunction::Flow,
            found is None ==> forall|j: int| 0 <= j < k ==> table@[j].name@ != function@,
            found matches Some(j) ==> j < k && table@[j as int].name@ == function@ && forall|
                m: int,
            | 0 <= m < j ==> table@[m].name@ != function@,
        decreases table@.len() - k,
    {
        if found.is_none() && str_equal(table[k].name, function) {
            found = Some(k);
        }
        k = k + 1;
    }
    proof {
        reveal_strlit("Clear");
        reveal_strlit("Data");
        reveal_strlit("Flow");
        reveal_strlit("ferris");
        reveal_strlit("rust");
    }
    let ghost name = or_if_empty(data@, "Rustaceans"@);
    if let Some(j) = found {
        table[j].call(&mut my_print, f32_line);
        proof {
            if j == 1 {
                assert(my_print.chunks() =~= title_chunks() + data_chunks(f32_line@));
            } else if j == 2 {
                assert(my_print.chunks() =~= title_chunks() + flow_chunks());
            }
        }
    } else if str_equal(function, "ferris") || str_equal(function, "rust") {
        my_print.push_input(function.to_owned());
        assert(my_print.inputs() =~= seq![data@, function@]);
        my_ferris(&mut my_print);
        assert(my_print.chunks() =~= title_chunks() + ferris_chunks(function@, name));
    } else {
        my_print.push_input("Rust".to_owned());
        proof {
            reveal_strlit("Rust");
        }
        assert(my_print.inputs() =~= seq![data@, "Rust"@]);
        my_ferris(&mut my_print);
        // default
        my_print.print(angle(function));
        my_print.print(" ");
        my_print.print(angle(data));
        assert(my_print.chunks() =~= title_chunks() + ferris_chunks("Rust"@, name) + seq![
            seq!['<'] + function@ + seq!['>'],
            " "@,
            seq!['<'] + data@ + seq!['>'],
        ]);
    }
    my_print.flush()
}

/// Every demo but `Clear` shows the course title first: the text of
/// `my_rust` starts with the title.
pub proof fn law_title_first(function: Seq<char>, data: Seq<char>, f32_line: Seq<char>)
    requires
        function != "Clear"@,
    ensures
        title_chunks().flatten().is_prefix_of(my_rust_text(function, data, f32_line)),
{
    let name = or_if_empty(data, "Rustaceans"@);
    let rest: Seq<Seq<char>> = if function == "Data"@ {
        data_chunks(f32_line)
    } else if function == "Flow"@ {
        flow_chunks()
    } else if function == "ferris"@ || function == "rust"@ {
        ferris_chunks(function, name)
    } else {
        ferris_chunks("Rust"@, name) + seq![
            seq!['<'] + function + seq!['>'],
            " "@,
            seq!['<'] + data + seq!['>'],
        ]
    };
    if !(function == "Data"@ || function == "Flow"@ || function == "ferris"@ || function
        == "rust"@) {
        assert(title_chunks() + ferris_chunks("Rust"@, name) + seq![
            seq!['<'] + function + seq!['>'],
            " "@,
            seq!['<'] + data + seq!['>'],
        ] =~= title_chunks() + rest);
    }
    assert(my_rust_text(function, data, f32_line) == (title_chunks() + rest).flatten());
    vstd::seq_lib::lemma_flatten_concat(title_chunks(), rest);
    let t = title_chunks().flatten();
    assert(t =~= (title_chunks() + rest).flatten().subrange(0, t.len() as int));
}

proof fn lemma_flatten_push(s: Seq<Seq<char>>, a: Seq<char>)
    ensures
        s.push(a).flatten() == s.flatten() + a,
{
    vstd::seq_lib::lemma_flatten_concat(s, seq![a]);
    assert(s.push(a) =~= s + seq![a]);
    let one = seq![a];
    assert(one.first() == a);
    assert(one.drop_first() =~= Seq::<Seq<char>>::empty());
    assert(one.drop_first().flatten() =~= Seq::<char>::empty());
    assert(one.flatten() =~= a);
}

proof fn lemma_flatten_empty()
    ensures
        Seq::<Seq<char>>::empty().flatten() == Seq::<char>::empty(),
{
}

/// Ferris's greeting, written out.
proof fn lemma_ferris_flat(func: Seq<char>, name: Seq<char>)
    ensures
        ferris_chunks(func, name).flatten() == seq!['\n'] + ("         < Hello, "@ + func
            + " and "@ + name + "! >"@).push('\n') + "                \\"@.push('\n')
            + "                 \\"@ + ferris_art().push('\n'),
{
    let f = ferris_chunks(func, name);
    let e = Seq::<Seq<char>>::empty();
    lemma_flatten_empty();
    assert(f =~= e.push(f[0]).push(f[1]).push(f[2]).push(f[3]).push(f[4]));
    lemma_flatten_push(e, f[0]);
    lemma_flatten_push(e.push(f[0]), f[1]);
    lemma_flatten_push(e.push(f[0]).push(f[1]), f[2]);
    lemma_flatten_push(e.push(f[0]).push(f[1]).push(f[2]), f[3]);
    lemma_flatten_push(e.push(f[0]).push(f[1]).push(f[2]).push(f[3]), f[4]);
    assert(f.flatten() =~= f[0] + f[1] + f[2] + f[3] + f[4]);
}

/// The echo `<function> <data>`, written out.
proof fn lemma_echo_flat(function: Seq<char>, data: Seq<char>)
    ensures
        seq![seq!['<'] + function + seq!['>'], " "@, seq!['<'] + data + seq!['>']].flatten()
            == seq!['<'] + function + seq!['>'] + " "@ + seq!['<'] + data + seq!['>'],
{
    let g = seq![seq!['<'] + function + seq!['>'], " "@, seq!['<'] + data + seq!['>']];
    let e = Seq::<Seq<char>>::empty();
    lemma_flatten_empty();
    assert(g =~= e.push(g[0]).push(g[1]).push(g[2]));
    lemma_flatten_push(e, g[0]);
    lemma_flatten_push(e.push(g[0]), g[1]);
    lemma_flatten_push(e.push(g[0]).push(g[1]), g[2]);
    assert(g.flatten() =~= g[0] + g[1] + g[2]);
}

/// Ferris greets who he is asked to: for a function name that is none of
/// the demos (`Clear`, `Data`, `Flow`) nor `ferris` or `rust`, the text is
/// the title, then Ferris saying hello to `Rust` and to `data` (to
/// `Rustaceans` when `data` is empty), the crab, and `<function> <data>`.
/// For `ferris` and `rust` he says hello to that name and to `data`, and
/// nothing follows the crab.
pub proof fn law_greets_data(function: Seq<char>, data: Seq<char>, f32_line: Seq<char>)
    requires
        function != "Clear"@,
        function != "Data"@,
        function != "Flow"@,
    ensures
        function != "ferris"@ && function != "rust"@ ==> my_rust_text(function, data, f32_line)
            == title_chunks().flatten() + seq!['\n'] + ("         < Hello, "@ + "Rust"@ + " and "@
            + (if data.len() == 0 {
            "Rustaceans"@
        } else {
            data
        }) + "! >"@).push('\n') + "                \\"@.push('\n') + "                 \\"@
            + ferris_art().push('\n') + seq!['<'] + function + seq!['>'] + " "@ + seq!['<'] + data
            + seq!['>'],
        function == "ferris"@ || function == "rust"@ ==> my_rust_text(function, data, f32_line)
            == title_chunks().flatten() + seq!['\n'] + ("         < Hello, "@ + function + " and "@
            + (if data.len() == 0 {
            "Rustaceans"@
        } else {
            data
        }) + "! >"@).push('\n') + "                \\"@.push('\n') + "                 \\"@
            + ferris_art().push('\n'),
{
    let name = or_if_empty(data, "Rustaceans"@);
    if function == "ferris"@ || function == "rust"@ {
        let f = ferris_chunks(function, name);
        lemma_ferris_flat(function, name);
        vstd::seq_lib::lemma_flatten_concat(title_chunks(), f);
        assert(my_rust_text(function, data, f32_line) == (title_chunks() + f).flatten());
        assert(my_rust_text(function, data, f32_line) =~= title_chunks().flatten() + f.flatten());
    } else {
        let f = ferris_chunks("Rust"@, name);
        let g = seq![seq!['<'] + function + seq!['>'], " "@, seq!['<'] + data + seq!['>']];
        lemma_ferris_flat("Rust"@, name);
        lemma_echo_flat(function, data);
        vstd::seq_lib::lemma_flatten_concat(title_chunks() + f, g);
        vstd::seq_lib::lemma_flatten_concat(title_chunks(), f);
        assert(my_rust_text(function, data, f32_line) == (title_chunks() + f + g).flatten());
        assert(my_rust_text(function, data, f32_line) =~= title_chunks().flatten() + f.flatten()
            + g.flatten());
    }
}

/// The data-type demo does not depend on the data: whatever `data` is, the
/// text is the title, the int demo (`13 + 24 = 37`, `13 / (int32) 3 = 4`)
/// followed at once by the `f32` division line the caller formatted, then
/// the array, tuple, vector, string and boxed-list demos.
pub proof fn law_data_demo_ignores_data(d1: Seq<char>, d2: Seq<char>, f32_line: Seq<char>)
    ensures
        my_rust_text("Data"@, d1, f32_line) == my_rust_text("Data"@, d2, f32_line),
        my_rust_text("Data"@, d1, f32_line) == title_chunks().flatten()
            + "=== int data type ==="@.push('\n') + (dec(13) + " + "@ + dec(24) + " = "@
            + dec(37)).push('\n') + (dec(13) + " / (int32) "@ + dec(3) + " = "@ + dec(4)).push(
            '\n',
        ) + f32_line.push('\n') + (array_chunks() + tuple_chunks() + vec_chunks()
            + string_chunks() + box_chunks()).flatten(),
{
    reveal_strlit("Clear");
    reveal_strlit("Data");
    assert("Data"@.len() == 4 && "Clear"@.len() == 5);
    assert("Data"@ != "Clear"@);
    let i = int_chunks(f32_line);
    let rest = array_chunks() + tuple_chunks() + vec_chunks() + string_chunks() + box_chunks();
    let e = Seq::<Seq<char>>::empty();
    lemma_flatten_empty();
    assert(i =~= e.push(i[0]).push(i[1]).push(i[2]).push(i[3]));
    lemma_flatten_push(e, i[0]);
    lemma_flatten_push(e.push(i[0]), i[1]);
    lemma_flatten_push(e.push(i[0]).push(i[1]), i[2]);
    lemma_flatten_push(e.push(i[0]).push(i[1]).push(i[2]), i[3]);
    assert(data_chunks(f32_line) =~= i + rest);
    vstd::seq_lib::lemma_flatten_concat(i, rest);
    vstd::seq_lib::lemma_flatten_concat(title_chunks(), data_chunks(f32_line));
    assert(i.flatten() =~= i[0] + i[1] + i[2] + i[3]);
    assert(my_rust_text("Data"@, d1, f32_line) == (title_chunks() + data_chunks(f32_line)).flatten());
    assert(my_rust_text("Data"@, d2, f32_line) == (title_chunks() + data_chunks(f32_line)).flatten());
    assert(data_chunks(f32_line).flatten() == i.flatten() + rest.flatten());
    assert(my_rust_text("Data"@, d1, f32_line) =~= title_chunks().flatten() + i[0] + i[1] + i[2]
        + i[3] + rest.flatten());
}

} // verus!
