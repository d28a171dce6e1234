use regex::Regex;
use rust_shiori::request::{Method, Request};

fn field(request: &Request, name: &str) -> Option<String> {
    request.get_field(name).map(|v| v.to_string())
}

#[test]
fn get_request_with_one_field() {
    let request = Request::parse("GET SHIORI/3.0\r\nSender: Foo\r\n\r\n").unwrap();
    assert_eq!(request.method(), Method::Get);
    assert_eq!(request.version(), "3.0");
    assert_eq!(request.fields_iter(), vec!["Sender"]);
    assert_eq!(request.get_field("Sender"), Some("Foo"));
    assert_eq!(request.fields().len(), 1);
}

#[test]
fn each_method_is_recognized() {
    let notify = Request::parse("NOTIFY SHIORI/3.0\r\nID: OnBoot\r\n\r\n").unwrap();
    assert_eq!(notify.method(), Method::Notify);
    let teach = Request::parse("TEACH SHIORI/2.4\r\nWord: x\r\n\r\n").unwrap();
    assert_eq!(teach.method(), Method::Teach);
    assert_eq!(teach.version(), "2.4");
    let get = Request::parse("GET SHIORI/10.25\r\n\r\n").unwrap();
    assert_eq!(get.method(), Method::Get);
    assert_eq!(get.version(), "10.25");
}

#[test]
fn method_keywords() {
    assert_eq!(Method::Get.as_str(), "GET");
    assert_eq!(Method::Notify.as_str(), "NOTIFY");
    assert_eq!(Method::Teach.as_str(), "TEACH");
}

#[test]
fn method_is_read_from_its_keyword() {
    assert_eq!("GET".parse::<Method>(), Ok(Method::Get));
    assert_eq!("NOTIFY".parse::<Method>(), Ok(Method::Notify));
    assert_eq!("TEACH".parse::<Method>(), Ok(Method::Teach));
    assert_eq!(Method::from_keyword("TEACH"), Ok(Method::Teach));
    for other in ["", "get", "Get", "GET ", " GET", "PUT", "GETS", "NOTIFYTEACH"] {
        assert_eq!(other.parse::<Method>(), Err(()));
        assert_eq!(Method::from_keyword(other), Err(()));
    }
}

#[test]
fn text_without_header_is_rejected() {
    assert!(Request::parse("").is_err());
    assert!(Request::parse("Sender: Foo\r\n\r\n").is_err());
    assert!(Request::parse("PUT SHIORI/3.0\r\n\r\n").is_err());
    assert!(Request::parse("GET SHIORI/3\r\n\r\n").is_err());
    assert!(Request::parse("GET SHIORI/3.\r\n\r\n").is_err());
    assert!(Request::parse("GET SHIORI/.0\r\n\r\n").is_err());
    assert!(Request::parse("GET SHIORI/3.0 \r\n\r\n").is_err());
    assert!(Request::parse("GET  SHIORI/3.0\r\n").is_err());
    assert!(Request::parse("get SHIORI/3.0\r\n").is_err());
    assert!(Request::parse("GET SHIORI/3.0\rx\n").is_err());
}

#[test]
fn request_without_fields_is_accepted() {
    let request = Request::parse("GET SHIORI/3.0").unwrap();
    assert_eq!(request.fields_iter().len(), 0);
    assert_eq!(request.get_field("Sender"), None);
}

#[test]
fn header_need_not_be_the_first_line() {
    let request = Request::parse("Charset: UTF-8\r\nNOTIFY SHIORI/3.0\r\nID: OnBoot\r\n").unwrap();
    assert_eq!(request.method(), Method::Notify);
    assert_eq!(request.fields_iter(), vec!["Charset", "ID"]);
    assert_eq!(request.get_field("Charset"), Some("UTF-8"));
}

#[test]
fn first_header_wins() {
    let request = Request::parse("TEACH SHIORI/1.0\nGET SHIORI/3.0\n").unwrap();
    assert_eq!(request.method(), Method::Teach);
    assert_eq!(request.version(), "1.0");
}

#[test]
fn keyword_inside_a_line_makes_no_header() {
    assert!(Request::parse("FORGET SHIORI/3.0\r\n\r\n").is_err());
    assert!(Request::parse("FORGET SHIORI/3.0").is_err());
    assert!(Request::parse("xGET SHIORI/3.0\r\n").is_err());
    assert!(Request::parse(" GET SHIORI/3.0\r\n").is_err());
    assert!(Request::parse("A: b\rGET SHIORI/3.0\r\n").is_err());
    assert!(Request::parse("Sender: GET SHIORI/3.0\r\n").is_err());
    let request = Request::parse("FORGET SHIORI/3.0\nTEACH SHIORI/2.0\n").unwrap();
    assert_eq!(request.method(), Method::Teach);
    assert_eq!(request.version(), "2.0");
}

#[test]
fn later_field_replaces_earlier_one() {
    let request = Request::parse("GET SHIORI/3.0\r\nA: 1\r\nB: 2\r\nA: 3\r\n\r\n").unwrap();
    assert_eq!(request.fields_iter(), vec!["A", "B"]);
    assert_eq!(request.get_field("A"), Some("3"));
    assert_eq!(request.get_field("B"), Some("2"));
}

#[test]
fn field_value_may_be_empty_or_hold_colons() {
    let request = Request::parse("GET SHIORI/3.0\nEmpty: \nUrl: http://a: b\n").unwrap();
    assert_eq!(request.get_field("Empty"), Some(""));
    assert_eq!(request.get_field("Url"), Some("http://a: b"));
}

#[test]
fn field_name_starts_its_line() {
    let request = Request::parse("GET SHIORI/3.0\na:b: c\n:d: e\n f: g\n").unwrap();
    assert_eq!(request.fields_iter(), vec![" f"]);
    assert_eq!(request.get_field(" f"), Some("g"));
    assert_eq!(request.get_field("b"), None);
    assert_eq!(request.get_field("d"), None);
}

#[test]
fn carriage_return_inside_a_line_ends_no_line() {
    let request = Request::parse("GET SHIORI/3.0\na: b\rc: d\ne: f\r\n").unwrap();
    assert_eq!(request.fields_iter(), vec!["e"]);
    assert_eq!(request.get_field("e"), Some("f"));
}

#[test]
fn text_beyond_ascii_is_kept() {
    let request = Request::parse("GET SHIORI/3.0\r\n名前: さくら\r\n\r\n").unwrap();
    assert_eq!(request.get_field("名前"), Some("さくら"));
}

fn patterns() -> (Regex, Regex) {
    let header =
        Regex::new(r"(?m)^((?P<method>GET|NOTIFY|TEACH)) SHIORI/(?P<version>[0-9]+\.[0-9]+)\r?$")
            .unwrap();
    let field = Regex::new(r"(?m)^(?P<field>[^:\r\n]+): (?P<value>[^\r\n]*)\r?$").unwrap();
    (header, field)
}

fn by_pattern(
    (header, field): &(Regex, Regex),
    text: &str,
) -> Option<(String, String, Vec<(String, String)>)> {
    let found = header.captures(text)?;
    let mut fields: Vec<(String, String)> = Vec::new();
    for captures in field.captures_iter(text) {
        let name = captures.name("field").unwrap().as_str().to_string();
        let value = captures.name("value").unwrap().as_str().to_string();
        match fields.iter().position(|(n, _)| *n == name) {
            Some(i) => fields[i].1 = value,
            None => fields.push((name, value)),
        }
    }
    Some((
        found.name("method").unwrap().as_str().to_string(),
        found.name("version").unwrap().as_str().to_string(),
        fields,
    ))
}

fn by_library(text: &str) -> Option<(String, String, Vec<(String, String)>)> {
    let request = Request::parse(text).ok()?;
    let mut fields = Vec::new();
    for name in request.fields_iter() {
        fields.push((name.to_string(), field(&request, name).unwrap()));
    }
    Some((request.method().as_str().to_string(), request.version().to_string(), fields))
}

#[test]
fn parser_agrees_with_the_line_patterns_on_chosen_texts() {
    let texts = [
        "",
        "GET SHIORI/3.0",
        "GET SHIORI/3.0\r",
        "GET SHIORI/3.0\r\r\n",
        "GET SHIORI/3.0\n\r",
        "GET SHIORI/3.0\r\nSender: Foo\r\n\r\n",
        "xGET SHIORI/3.0\r\n: \r\n",
        "NOTIFY SHIORI/3.0\r\nA: 1\r\nA: 2\r\n",
        "TEACH SHIORI/12.34\nA: b: c\n",
        "GET SHIORI/3.0\nA:  b\n:: x\n",
        "GET SHIORI/3.0\na: b\r",
        "GET SHIORI/3.0\na: b\rc: d",
        "GET SHIORI/3.0x\nGET SHIORI/3.1\n",
        "GET SHIORI/3.0: GET SHIORI/2.0\n",
        "A: GET SHIORI/3.0\n",
        "GET SHIORI/3.0\n a : b \n",
        "GET SHIORI/3.0\n名前: さくら\r\n",
        "GET SHIORI/٣.٠\n",
        "GETNOTIFY SHIORI/1.1\nTEACH SHIORI/2.2",
    ];
    let patterns = patterns();
    for text in texts.iter() {
        assert_eq!(by_library(text), by_pattern(&patterns, text), "on {:?}", text);
    }
}

#[test]
fn parser_agrees_with_the_line_patterns_on_many_texts() {
    let alphabet: Vec<&str> = vec![
        "GET SHIORI/3.0", "NOTIFY SHIORI/12.5", "TEACH SHIORI/1.", "GET", " SHIORI/", "3", ".",
        "0", ":", " ", "\r", "\n", "a", "B", ": ", "\r\n", "あ", "Name: value", "\n", "\r\n",
    ];
    let patterns = patterns();
    let mut state: u64 = 0x2545_f491_4f6c_dd1d;
    let mut parsed = 0;
    for _ in 0..20000 {
        let mut text = String::new();
        state = state.wrapping_mul(6364136223846793005).wrapping_add(1442695040888963407);
        let length = (state >> 33) % 14;
        for _ in 0..length {
            state = state.wrapping_mul(6364136223846793005).wrapping_add(1442695040888963407);
            text.push_str(alphabet[((state >> 33) % alphabet.len() as u64) as usize]);
        }
        let expected = by_pattern(&patterns, &text);
        if expected.is_some() {
            parsed += 1;
        }
        assert_eq!(by_library(&text), expected, "on {:?}", text);
    }
    assert!(parsed > 100);
}

#[test]
fn fields_are_found_before_the_header_too() {
    let texts = ["a: b\nc: d\r\ne:f\n", "x\ny: z", ": a\nb: \n"];
    let field = Regex::new(r"(?m)^(?P<field>[^:\r\n]+): (?P<value>[^\r\n]*)\r?$").unwrap();
    for text in texts.iter() {
        let with_header = format!("{}\nGET SHIORI/3.0", text);
        let request = Request::parse(&with_header).unwrap();
        let mut expected: Vec<String> = Vec::new();
        for captures in field.captures_iter(&with_header) {
            let name = captures.name("field").unwrap().as_str().to_string();
            if !expected.contains(&name) {
                expected.push(name);
            }
        }
        assert_eq!(request.fields_iter(), expected);
    }
}
