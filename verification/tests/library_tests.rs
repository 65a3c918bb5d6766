use volt_parse::chains::{chain, chain_select, or_chain};
use volt_parse::combinators::{always, defer, either_or, not, or};
use volt_parse::combiners::{LeftRight, TakeLeft, TakeRight, gen_comb};
use volt_parse::file_pos::{FilePos, advance};
use volt_parse::modifiers::{
    ValIsChar, ValWithPos, consume_all, display, fail_if, mod_dat, mod_val, replace_val,
    succeed_if,
};
use volt_parse::parser::{PErr, PRes, Parser, ParserInput, get_p_out_pos};
use volt_parse::parsers_ext::{
    Infix, air, alpha, alphanumeric, ascii_alpha, ascii_alphanumeric, ascii_digit,
    ascii_lowercase, ascii_uppercase, comma, digit, dot, escaped_char, infix, infixp, lowercase,
    maybe, newline, normal_string, uppercase,
};
use volt_parse::primitives::{any_char, char_in_str, char_single, keyword, read_char_f};
use volt_parse::parsers_ext::IsAsciiLowercase;
use volt_parse::repeat::{none_or_many, none_or_many_until, one_or_many};

fn cv(s: &str) -> Vec<char> {
    s.chars().collect()
}

#[test]
fn advance_counts_lines_and_columns() {
    let consumed = cv("ab\ncd");
    let p = advance(FilePos::new(1, 0), &consumed);
    assert_eq!(p, FilePos { line: 2, column: 2 });

    let crlf = cv("x\r\ny");
    let q = advance(FilePos::new(3, 7), &crlf);
    assert_eq!(q, FilePos { line: 4, column: 1 });
}

#[test]
fn remainder_is_suffix_of_input() {
    let text = cv("hibob");
    let res = keyword(cv("hi")).parse(ParserInput::new(&text)).unwrap();
    assert_eq!(res.remainder, &text[2..]);
}

#[test]
fn or_fallback_equals_second_alone() {
    let text = cv("bob");
    let a = keyword(cv("hi"));
    let b = keyword(cv("bob"));
    let both = or(a, b).parse(ParserInput::new(&text));
    let alone = keyword(cv("bob")).parse(ParserInput::new(&text));
    assert_eq!(both, alone);
    assert_eq!(
        both,
        Ok(PRes { val: cv("bob"), pos: FilePos { line: 1, column: 3 }, remainder: &[] })
    );
}

#[test]
fn defer_matches_direct_invocation() {
    let t1 = cv("ka");
    let t2 = cv("zz");
    let deferred = defer(keyword(cv("ka")));
    let direct = keyword(cv("ka"));
    assert_eq!(deferred.parse(ParserInput::new(&t1)), direct.parse(ParserInput::new(&t1)));
    assert_eq!(deferred.parse(ParserInput::new(&t2)), direct.parse(ParserInput::new(&t2)));
}

#[test]
fn consume_all_requires_empty_remainder() {
    let exact = cv("ab");
    let res = consume_all(keyword(cv("ab"))).parse(ParserInput::new(&exact));
    assert_eq!(
        res,
        Ok(PRes { val: cv("ab"), pos: FilePos { line: 1, column: 2 }, remainder: &[] })
    );

    let longer = cv("abc");
    let res2 = consume_all(keyword(cv("ab"))).parse(ParserInput::new(&longer));
    assert_eq!(res2, Err(PErr { pos: FilePos { line: 1, column: 2 } }));
}

#[test]
fn not_succeeds_without_consuming() {
    let text = cv("xyz");
    let res = not(char_single('@')).parse(ParserInput::new(&text));
    assert_eq!(res, Ok(PRes { val: (), pos: FilePos { line: 1, column: 0 }, remainder: &text[..] }));

    let at = cv("@yz");
    let res2 = not(char_single('@')).parse(ParserInput::new(&at));
    assert_eq!(res2, Err(PErr { pos: FilePos { line: 1, column: 0 } }));
}

#[test]
fn keyword_failure_keeps_start_position() {
    let text = cv("hax");
    let res = keyword(cv("hi")).parse(ParserInput::new(&text));
    assert_eq!(res, Err(PErr { pos: FilePos { line: 1, column: 0 } }));
    assert_eq!(get_p_out_pos(&res), FilePos { line: 1, column: 0 });
}

#[test]
fn chain_folds_left_to_right() {
    let text = cv("abc");
    let ps = vec![keyword(cv("a")), keyword(cv("b")), keyword(cv("c"))];
    let res = chain(ps, TakeRight).parse(ParserInput::new(&text));
    assert_eq!(
        res,
        Ok(PRes { val: cv("c"), pos: FilePos { line: 1, column: 3 }, remainder: &[] })
    );

    let empty: Vec<volt_parse::primitives::Keyword> = Vec::new();
    let res2 = chain(empty, TakeRight).parse(ParserInput::new(&text));
    assert_eq!(res2, Err(PErr { pos: FilePos { line: 1, column: 0 } }));
}

#[test]
fn chain_select_keeps_designated_value() {
    let text = cv("(x)");
    let ps = vec![keyword(cv("(")), keyword(cv("x")), keyword(cv(")"))];
    let res = chain_select(ps, 1).parse(ParserInput::new(&text));
    assert_eq!(
        res,
        Ok(PRes { val: cv("x"), pos: FilePos { line: 1, column: 3 }, remainder: &[] })
    );

    let ps0 = vec![keyword(cv("(")), keyword(cv("x")), keyword(cv(")"))];
    let res0 = chain_select(ps0, 0).parse(ParserInput::new(&text));
    assert_eq!(
        res0,
        Ok(PRes { val: cv("("), pos: FilePos { line: 1, column: 3 }, remainder: &[] })
    );

    let bad = vec![keyword(cv("(")), keyword(cv("y")), keyword(cv(")"))];
    let res1 = chain_select(bad, 1).parse(ParserInput::new(&text));
    assert_eq!(res1, Err(PErr { pos: FilePos { line: 1, column: 1 } }));
}

#[test]
fn or_chain_takes_first_success() {
    let text = cv("b");
    let ps = vec![keyword(cv("a")), keyword(cv("b")), keyword(cv("c"))];
    let res = or_chain(ps).parse(ParserInput::new(&text));
    assert_eq!(
        res,
        Ok(PRes { val: cv("b"), pos: FilePos { line: 1, column: 1 }, remainder: &[] })
    );

    let none = vec![keyword(cv("x")), keyword(cv("y"))];
    let res2 = or_chain(none).parse(ParserInput::new(&text));
    assert_eq!(res2, Err(PErr { pos: FilePos { line: 1, column: 0 } }));
}

#[test]
fn either_or_prefers_the_sequence() {
    let ab = cv("ab");
    let res = either_or(keyword(cv("a")), keyword(cv("b")), TakeRight).parse(ParserInput::new(
        &ab,
    ));
    assert_eq!(
        res,
        Ok(PRes { val: cv("b"), pos: FilePos { line: 1, column: 2 }, remainder: &[] })
    );

    let a = cv("a");
    let res2 = either_or(keyword(cv("a")), keyword(cv("b")), TakeRight).parse(ParserInput::new(
        &a,
    ));
    assert_eq!(
        res2,
        Ok(PRes { val: cv("a"), pos: FilePos { line: 1, column: 1 }, remainder: &[] })
    );

    let b = cv("b");
    let res3 = either_or(keyword(cv("a")), keyword(cv("b")), TakeRight).parse(ParserInput::new(
        &b,
    ));
    assert_eq!(
        res3,
        Ok(PRes { val: cv("b"), pos: FilePos { line: 1, column: 1 }, remainder: &[] })
    );
}

#[test]
fn repetition_edge_cases() {
    let text = cv("bbb");
    let res = one_or_many(char_single('a')).parse(ParserInput::new(&text));
    assert_eq!(res, Err(PErr { pos: FilePos { line: 1, column: 0 } }));

    let res2 = none_or_many(char_single('a')).parse(ParserInput::new(&text));
    assert_eq!(
        res2,
        Ok(PRes { val: Vec::new(), pos: FilePos { line: 1, column: 0 }, remainder: &text[..] })
    );
}

#[test]
fn until_consumes_terminator() {
    let text = cv("ab!c");
    let res = none_or_many_until(any_char(), char_single('!'), TakeLeft).parse(ParserInput::new(
        &text,
    ));
    assert_eq!(
        res,
        Ok(PRes {
            val: cv("ab"),
            pos: FilePos { line: 1, column: 3 },
            remainder: &text[3..],
        })
    );
}

#[test]
fn escaped_char_reads_two_characters() {
    let text = cv("\\n rest");
    let res = escaped_char().parse(ParserInput::new(&text));
    assert_eq!(
        res,
        Ok(PRes {
            val: cv("\\n"),
            pos: FilePos { line: 1, column: 2 },
            remainder: &text[2..],
        })
    );
}

#[test]
fn normal_string_keeps_content_between_quotes() {
    let text = cv("\"hi\" tail");
    let res = normal_string().parse(ParserInput::new(&text));
    assert_eq!(
        res,
        Ok(PRes {
            val: cv("hi"),
            pos: FilePos { line: 1, column: 4 },
            remainder: &text[4..],
        })
    );

    let open = cv("\"hi");
    let res2 = normal_string().parse(ParserInput::new(&open));
    assert!(res2.is_err());
}

#[test]
fn newline_prefers_two_character_form() {
    let crlf = cv("\r\nx");
    let res = newline().parse(ParserInput::new(&crlf));
    assert_eq!(
        res,
        Ok(PRes { val: cv("\r\n"), pos: FilePos { line: 2, column: 0 }, remainder: &crlf[2..] })
    );

    let lf = cv("\nx");
    let res2 = newline().parse(ParserInput::new(&lf));
    assert_eq!(
        res2,
        Ok(PRes { val: cv("\n"), pos: FilePos { line: 2, column: 0 }, remainder: &lf[1..] })
    );
}

#[test]
fn air_accepts_blank_tab_and_newline() {
    let blank = cv(" x");
    let res = air().parse(ParserInput::new(&blank));
    assert_eq!(
        res,
        Ok(PRes { val: cv(" "), pos: FilePos { line: 1, column: 1 }, remainder: &blank[1..] })
    );

    let tab = cv("\tx");
    let res2 = air().parse(ParserInput::new(&tab));
    assert_eq!(
        res2,
        Ok(PRes { val: cv("\t"), pos: FilePos { line: 1, column: 1 }, remainder: &tab[1..] })
    );

    let nl = cv("\nx");
    let res3 = air().parse(ParserInput::new(&nl));
    assert_eq!(
        res3,
        Ok(PRes { val: cv("\n"), pos: FilePos { line: 2, column: 0 }, remainder: &nl[1..] })
    );
}

#[test]
fn comma_and_dot_match_single_characters() {
    let c = cv(",x");
    assert_eq!(
        comma().parse(ParserInput::new(&c)),
        Ok(PRes { val: ',', pos: FilePos { line: 1, column: 1 }, remainder: &c[1..] })
    );
    let d = cv(".x");
    assert_eq!(
        dot().parse(ParserInput::new(&d)),
        Ok(PRes { val: '.', pos: FilePos { line: 1, column: 1 }, remainder: &d[1..] })
    );
}

#[test]
fn classification_parsers() {
    let a = cv("a");
    let big = cv("A");
    let nine = cv("9");
    let tilde = cv("~");

    assert!(lowercase().parse(ParserInput::new(&a)).is_ok());
    assert!(lowercase().parse(ParserInput::new(&big)).is_err());
    assert!(uppercase().parse(ParserInput::new(&big)).is_ok());
    assert!(uppercase().parse(ParserInput::new(&a)).is_err());
    assert!(alpha().parse(ParserInput::new(&a)).is_ok());
    assert!(alpha().parse(ParserInput::new(&nine)).is_err());
    assert!(alphanumeric().parse(ParserInput::new(&nine)).is_ok());
    assert!(alphanumeric().parse(ParserInput::new(&tilde)).is_err());
    assert!(digit().parse(ParserInput::new(&nine)).is_ok());
    assert!(digit().parse(ParserInput::new(&a)).is_err());

    assert!(ascii_lowercase().parse(ParserInput::new(&a)).is_ok());
    assert!(ascii_lowercase().parse(ParserInput::new(&big)).is_err());
    assert!(ascii_uppercase().parse(ParserInput::new(&big)).is_ok());
    assert!(ascii_alpha().parse(ParserInput::new(&a)).is_ok());
    assert!(ascii_alpha().parse(ParserInput::new(&nine)).is_err());
    assert!(ascii_alphanumeric().parse(ParserInput::new(&nine)).is_ok());
    assert!(ascii_alphanumeric().parse(ParserInput::new(&tilde)).is_err());
    assert!(ascii_digit().parse(ParserInput::new(&nine)).is_ok());
    assert!(ascii_digit().parse(ParserInput::new(&a)).is_err());
}

#[test]
fn value_modifiers() {
    let x = cv("x rest");
    let res = display(char_single('x')).parse(ParserInput::new(&x));
    assert_eq!(
        res,
        Ok(PRes { val: cv("x"), pos: FilePos { line: 1, column: 1 }, remainder: &x[1..] })
    );

    let a = cv("ab");
    let res2 = replace_val(keyword(cv("a")), 't').parse(ParserInput::new(&a));
    assert_eq!(
        res2,
        Ok(PRes { val: 't', pos: FilePos { line: 1, column: 1 }, remainder: &a[1..] })
    );

    let res3 = mod_val(char_single('a'), volt_parse::modifiers::CharToStr).parse(
        ParserInput::new(&a),
    );
    assert_eq!(
        res3,
        Ok(PRes { val: cv("a"), pos: FilePos { line: 1, column: 1 }, remainder: &a[1..] })
    );

    let hi = cv("hi!");
    let res4 = mod_dat(keyword(cv("hi")), ValWithPos).parse(ParserInput::new(&hi));
    assert_eq!(
        res4,
        Ok(PRes {
            val: (cv("hi"), FilePos { line: 1, column: 2 }),
            pos: FilePos { line: 1, column: 2 },
            remainder: &hi[2..],
        })
    );
}

#[test]
fn semantic_filters() {
    let x = cv("xy");
    let res = succeed_if(any_char(), ValIsChar { c: 'x' }).parse(ParserInput::new(&x));
    assert_eq!(
        res,
        Ok(PRes { val: 'x', pos: FilePos { line: 1, column: 1 }, remainder: &x[1..] })
    );

    let y = cv("yx");
    let res2 = succeed_if(any_char(), ValIsChar { c: 'x' }).parse(ParserInput::new(&y));
    assert_eq!(res2, Err(PErr { pos: FilePos { line: 1, column: 1 } }));

    let res3 = fail_if(any_char(), ValIsChar { c: 'x' }).parse(ParserInput::new(&y));
    assert_eq!(
        res3,
        Ok(PRes { val: 'y', pos: FilePos { line: 1, column: 1 }, remainder: &y[1..] })
    );
    let res4 = fail_if(any_char(), ValIsChar { c: 'x' }).parse(ParserInput::new(&x));
    assert_eq!(res4, Err(PErr { pos: FilePos { line: 1, column: 1 } }));
}

#[test]
fn always_and_maybe() {
    let text = cv("abc");
    let res = always('z').parse(ParserInput::new(&text));
    assert_eq!(
        res,
        Ok(PRes { val: 'z', pos: FilePos { line: 1, column: 0 }, remainder: &text[..] })
    );

    let res2 = maybe(keyword(cv("a"))).parse(ParserInput::new(&text));
    assert_eq!(
        res2,
        Ok(PRes { val: Some(cv("a")), pos: FilePos { line: 1, column: 1 }, remainder: &text[1..] })
    );

    let b = cv("b");
    let res3 = maybe(keyword(cv("a"))).parse(ParserInput::new(&b));
    assert_eq!(
        res3,
        Ok(PRes { val: None, pos: FilePos { line: 1, column: 0 }, remainder: &b[..] })
    );
}

#[test]
fn infix_keeps_all_three_parts() {
    let text = cv("(x)");
    let res = infix(keyword(cv("(")), keyword(cv("x")), keyword(cv(")"))).parse(
        ParserInput::new(&text),
    );
    assert_eq!(
        res,
        Ok(PRes {
            val: Infix { p: cv("x"), l: cv("("), r: cv(")") },
            pos: FilePos { line: 1, column: 3 },
            remainder: &[],
        })
    );

    let res2 = infixp(keyword(cv("(")), keyword(cv("x")), keyword(cv(")"))).parse(
        ParserInput::new(&text),
    );
    assert_eq!(
        res2,
        Ok(PRes { val: cv("x"), pos: FilePos { line: 1, column: 3 }, remainder: &[] })
    );
}

#[test]
fn char_set_and_predicate_parsers() {
    let t = cv("\tz");
    let res = char_in_str(cv(" \t")).parse(ParserInput::new(&t));
    assert_eq!(
        res,
        Ok(PRes { val: '\t', pos: FilePos { line: 1, column: 1 }, remainder: &t[1..] })
    );

    let z = cv("z");
    let res2 = char_in_str(cv(" \t")).parse(ParserInput::new(&z));
    assert_eq!(res2, Err(PErr { pos: FilePos { line: 1, column: 0 } }));

    let res3 = read_char_f(IsAsciiLowercase).parse(ParserInput::new(&z));
    assert_eq!(
        res3,
        Ok(PRes { val: 'z', pos: FilePos { line: 1, column: 1 }, remainder: &[] })
    );
}

#[test]
fn gen_comb_failure_propagation() {
    let text = cv("ab");
    let inp = ParserInput::new(&text);
    let ok_a = keyword(cv("a")).parse(inp);
    let ok_b = keyword(cv("ab")).parse(inp);
    let err = keyword(cv("z")).parse(inp);

    let both = gen_comb(ok_a.clone(), ok_b.clone(), &LeftRight);
    assert_eq!(
        both,
        Ok(PRes { val: (cv("a"), cv("ab")), pos: FilePos { line: 1, column: 2 }, remainder: &[] })
    );

    let first_fails = gen_comb(err.clone(), ok_b.clone(), &TakeLeft);
    assert_eq!(first_fails, Err(PErr { pos: FilePos { line: 1, column: 0 } }));

    let second_fails = gen_comb(ok_a, err, &TakeLeft);
    assert_eq!(second_fails, Err(PErr { pos: FilePos { line: 1, column: 0 } }));
}

#[test]
fn or5_surfaces_last_branch_failure() {
    let text = cv("z");
    let res = volt_parse::or5::or5(
        keyword(cv("a")),
        keyword(cv("b")),
        keyword(cv("c")),
        keyword(cv("d")),
        keyword(cv("e")),
    )
    .parse(ParserInput::new(&text));
    assert_eq!(res, Err(PErr { pos: FilePos { line: 1, column: 0 } }));
}

#[test]
fn result_helpers() {
    let text = cv("hibob");
    let res = keyword(cv("hi")).parse(ParserInput::new(&text)).unwrap();
    let next = res.to_in();
    assert_eq!(next.pos, FilePos { line: 1, column: 2 });
    assert_eq!(next.text, &text[2..]);

    let swapped = res.with_val(7u32);
    assert_eq!(swapped.val, 7u32);
    assert_eq!(swapped.pos, res.pos);
    assert_eq!(swapped.remainder, res.remainder);
}

#[test]
fn position_tracks_line_breaks_in_keywords() {
    let text = cv("a\nbb");
    let res = keyword(cv("a\nb")).parse(ParserInput::new(&text));
    assert_eq!(
        res,
        Ok(PRes { val: cv("a\nb"), pos: FilePos { line: 2, column: 1 }, remainder: &text[3..] })
    );
}
