use repogen::json::{Json, Member};
use repogen::render::render_key_value_pairs;

fn member(key: &str, value: Json) -> Member {
    Member { key: key.to_string(), value }
}

fn number(text: &str) -> Json {
    match serde_json::from_str::<serde_json::Number>(text) {
        Ok(number) => Json::Number(number),
        Err(error) => panic!("no number: {:?}", error),
    }
}

fn string(text: &str) -> Json {
    Json::String(text.to_string())
}

#[test]
fn renders_null_without_the_prefix() {
    assert_eq!(
        render_key_value_pairs(&Json::Null, "prefix", 2),
        "\x1b[1;30m| | \x1b[0m\x1b[1;35mnull\x1b[0m\n"
    );
}

#[test]
fn renders_scalars_with_prefix_and_indentation() {
    assert_eq!(
        render_key_value_pairs(&Json::Bool(false), "> ", 1),
        "\x1b[1;30m| \x1b[0m> \x1b[1;33mfalse\x1b[0m\n"
    );
    assert_eq!(
        render_key_value_pairs(&number("-1.5"), "", 0),
        "\x1b[1;30m\x1b[0m\x1b[1;35m-1.5\x1b[0m\n"
    );
    assert_eq!(
        render_key_value_pairs(&string("hi \"there\""), "p", 0),
        "\x1b[1;30m\x1b[0mp\x1b[1;32mhi \"there\"\x1b[0m\n"
    );
}

#[test]
fn renders_nested_object_one_level_deeper() {
    let value = Json::Object(vec![
        member("a", number("1")),
        member("b", Json::Object(vec![member("c", Json::Bool(true))])),
    ]);
    let expected = concat_all(&[
        "\x1b[1;30m\x1b[0m\x1b[1;34ma\x1b[0m: \x1b[1;30m\x1b[0m\x1b[1;35m1\x1b[0m\n",
        "\x1b[1;30m\x1b[0m\x1b[1;34mb\x1b[0m: \n",
        "\x1b[1;30m| \x1b[0m\x1b[1;34mc\x1b[0m: \x1b[1;30m\x1b[0m\x1b[1;33mtrue\x1b[0m\n",
    ]);
    assert_eq!(render_key_value_pairs(&value, "", 0), expected);
}

fn concat_all(parts: &[&str]) -> String {
    let mut out = String::new();
    for part in parts {
        out.push_str(part);
    }
    out
}

#[test]
fn renders_array_elements_with_their_index() {
    let value = Json::Array(vec![string("x"), Json::Null, number("3")]);
    let expected = concat_all(&[
        "\x1b[1;30m| \x1b[0m\x1b[1;35m0\x1b[0m| \x1b[1;32mx\x1b[0m\n",
        "\x1b[1;30m| \x1b[0m\x1b[1;35mnull\x1b[0m\n",
        "\x1b[1;30m| \x1b[0m\x1b[1;35m2\x1b[0m| \x1b[1;35m3\x1b[0m\n",
    ]);
    assert_eq!(render_key_value_pairs(&value, "ignored", 1), expected);
}

#[test]
fn renders_array_under_a_key_on_the_next_line() {
    let value = Json::Object(vec![member("list", Json::Array(vec![Json::Bool(true)]))]);
    let expected = concat_all(&[
        "\x1b[1;30m| \x1b[0m\x1b[1;34mlist\x1b[0m: \n",
        "\x1b[1;30m| | \x1b[0m\x1b[1;35m0\x1b[0m| \x1b[1;33mtrue\x1b[0m\n",
    ]);
    assert_eq!(render_key_value_pairs(&value, "", 1), expected);
}

#[test]
fn renders_containers_inside_an_array_without_the_index() {
    let value = Json::Array(vec![
        Json::Array(vec![number("7")]),
        Json::Object(vec![member("k", string("v"))]),
    ]);
    let expected = concat_all(&[
        "\x1b[1;30m\x1b[0m\x1b[1;35m0\x1b[0m| \x1b[1;35m7\x1b[0m\n",
        "\x1b[1;30m\x1b[0m\x1b[1;34mk\x1b[0m: \x1b[1;30m\x1b[0m\x1b[1;32mv\x1b[0m\n",
    ]);
    assert_eq!(render_key_value_pairs(&value, "", 0), expected);
}

#[test]
fn renders_nothing_for_empty_containers() {
    assert_eq!(render_key_value_pairs(&Json::Array(Vec::new()), "p", 3), "");
    assert_eq!(render_key_value_pairs(&Json::Object(Vec::new()), "p", 3), "");
    let value = Json::Object(vec![member("e", Json::Object(Vec::new()))]);
    assert_eq!(
        render_key_value_pairs(&value, "", 0),
        "\x1b[1;30m\x1b[0m\x1b[1;34me\x1b[0m: \n"
    );
}

#[test]
fn renders_index_past_nine_in_decimal() {
    let mut items = Vec::new();
    for _ in 0..11 {
        items.push(Json::Null);
    }
    items.push(Json::Bool(true));
    let out = render_key_value_pairs(&Json::Array(items), "", 0);
    assert!(out.ends_with("\x1b[1;30m\x1b[0m\x1b[1;35m11\x1b[0m| \x1b[1;33mtrue\x1b[0m\n"));
}

#[test]
fn json_get_finds_the_first_member_of_that_name() {
    let value = Json::Object(vec![
        member("a", number("1")),
        member("b", number("2")),
        member("a", number("3")),
    ]);
    assert_eq!(value.get("a"), Some(&number("1")));
    assert_eq!(value.get("b"), Some(&number("2")));
    assert_eq!(value.get("c"), None);
    assert_eq!(Json::Array(vec![number("1")]).get("0"), None);
    assert_eq!(string("a").get("a"), None);
}

#[test]
fn json_clone_copies_the_whole_tree() {
    let value = Json::Object(vec![
        member("a", Json::Array(vec![number("1"), Json::Null, string("s")])),
        member("b", Json::Object(vec![member("c", Json::Bool(true))])),
    ]);
    assert_eq!(value.clone(), value);
    assert_eq!(value.duplicate(), value);
}
