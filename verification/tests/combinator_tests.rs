use volt_parse::combinators::{and, defer, no_consume, then};
use volt_parse::or5::or5;
use volt_parse::combiners::LeftRight;
use volt_parse::file_pos::FilePos;
use volt_parse::or5::Or5;
use volt_parse::parser::{PRes, Parser, ParserInput};
use volt_parse::primitives::{char_single, keyword};
use volt_parse::repeat::one_or_many;

fn cv(s: &str) -> Vec<char> {
    s.chars().collect()
}

#[test]
fn then_test() {
    let text = cv("hibob");
    let res = then(keyword(cv("hi")), keyword(cv("bob")), LeftRight).parse(ParserInput::new(
        &text,
    ));

    println!("{:#?}", res);

    assert_eq!(
        res,
        Ok(PRes {
            val: (cv("hi"), cv("bob")),
            pos: FilePos { line: 1, column: 5 },
            remainder: &[],
        })
    );
}

#[test]
fn multi_element_parsers_test() {
    let text = cv("aaaaabb123");
    let res = one_or_many(char_single('a')).parse(ParserInput::new(&text));

    println!("{:#?}", res);

    let rem = cv("bb123");
    assert_eq!(
        res,
        Ok(PRes {
            val: vec!['a'; 5],
            pos: FilePos { line: 1, column: 5 },
            remainder: &rem[..],
        })
    );
}

#[test]
fn no_consume_test() {
    let text = cv("=======@--------");
    let res = then(
        then(
            one_or_many(char_single('=')),
            no_consume(char_single('@')),
            LeftRight,
        ),
        then(char_single('@'), one_or_many(char_single('-')), LeftRight),
        LeftRight,
    )
    .parse(ParserInput::new(&text));

    println!("{:#?}", res);

    assert_eq!(
        res,
        Ok(PRes {
            val: ((vec!['='; 7], '@'), ('@', vec!['-'; 8])),
            pos: FilePos { line: 1, column: 16 },
            remainder: &[],
        })
    );
}

#[test]
fn defer_test() {
    let text = cv("abc123");
    let res = defer(then(
        defer(keyword(cv("abc"))),
        defer(keyword(cv("123"))),
        LeftRight,
    ))
    .parse(ParserInput::new(&text));

    println!("{:#?}", res);

    assert_eq!(
        res,
        Ok(PRes {
            val: (cv("abc"), cv("123")),
            pos: FilePos { line: 1, column: 6 },
            remainder: &[],
        })
    );
}

#[test]
fn test_or5() {
    let text = cv("c");
    let res = or5(
        keyword(cv("a")),
        keyword(cv("b")),
        keyword(cv("c")),
        keyword(cv("d")),
        keyword(cv("e")),
    )
    .parse(ParserInput::new(&text));

    println!("{:#?}", res);
    assert_eq!(
        res,
        Ok(PRes {
            val: Or5::C(cv("c")),
            pos: FilePos { line: 1, column: 1 },
            remainder: &[],
        })
    );
}

#[test]
fn test_and() {
    let text = cv("abcdef");
    let res1 = and(keyword(cv("a")), keyword(cv("abc")), LeftRight).parse(ParserInput::new(
        &text,
    ));

    println!("Res1:\n{:#?}", res1);

    let rem1 = cv("def");
    assert_eq!(
        res1,
        Ok(PRes {
            val: (cv("a"), cv("abc")),
            pos: FilePos { line: 1, column: 3 },
            remainder: &rem1[..],
        })
    );

    let res2 = and(keyword(cv("abc")), keyword(cv("a")), LeftRight).parse(ParserInput::new(
        &text,
    ));

    println!("Res2:\n{:#?}", res2);

    let rem2 = cv("bcdef");
    assert_eq!(
        res2,
        Ok(PRes {
            val: (cv("abc"), cv("a")),
            pos: FilePos { line: 1, column: 1 },
            remainder: &rem2[..],
        })
    );
}
