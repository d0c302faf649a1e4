use jsbsimrs::framing::LineBuffer;
use jsbsimrs::Error;

fn buffer(bytes: &[u8]) -> LineBuffer {
    let mut b = LineBuffer::new();
    b.extend(bytes);
    b
}

#[test]
fn a_line_is_whole_only_with_its_newline() {
    let mut b = buffer(b"abc");
    assert_eq!(b.next_line(), None);
    b.extend(b"def\nrest");
    assert_eq!(b.next_line(), Some(b"abcdef\n".to_vec()));
    assert_eq!(b.next_line(), None);
    assert_eq!(b.take_all(), b"rest".to_vec());
    assert_eq!(b.take_all(), Vec::<u8>::new());
}

#[test]
fn lines_come_out_one_by_one() {
    let mut b = buffer(b"one\n\ntwo\r\n");
    assert_eq!(b.next_line(), Some(b"one\n".to_vec()));
    assert_eq!(b.next_line(), Some(b"\n".to_vec()));
    assert_eq!(b.next_line(), Some(b"two\r\n".to_vec()));
    assert_eq!(b.next_line(), None);
    assert_eq!(b, LineBuffer::new());
}

#[test]
fn recv_line_skips_blank_lines_and_prompts() {
    let mut b = buffer(b"\n  \nJSBSim>\n  JSBSim>  \r\nhello\nmore");
    assert_eq!(b.recv_line(), Ok(Some("hello\n".to_string())));
    assert_eq!(b.recv_line(), Ok(None));
    assert_eq!(b.take_all(), b"more".to_vec());
}

#[test]
fn recv_line_keeps_what_follows_the_response() {
    let mut b = buffer(b"first = 1\nsecond = 2\nthi");
    assert_eq!(b.recv_line(), Ok(Some("first = 1\n".to_string())));
    assert_eq!(b.recv_line(), Ok(Some("second = 2\n".to_string())));
    assert_eq!(b.recv_line(), Ok(None));
    b.extend(b"rd = 3\n");
    assert_eq!(b.recv_line(), Ok(Some("third = 3\n".to_string())));
}

#[test]
fn recv_line_waits_for_the_rest_of_a_line() {
    let mut b = LineBuffer::new();
    for chunk in [&b"JSB"[..], b"Sim> Res", b"uming", b"\r"] {
        b.extend(chunk);
        assert_eq!(b.recv_line(), Ok(None));
    }
    b.extend(b"\nJSBSim> ");
    assert_eq!(b.recv_line(), Ok(Some("JSBSim> Resuming\r\n".to_string())));
    assert_eq!(b.recv_line(), Ok(None));
    assert_eq!(b.take_all(), b"JSBSim> ".to_vec());
}

#[test]
fn recv_line_drops_noise_even_when_no_response_follows() {
    let mut b = buffer(b"\nJSBSim>\nJSBSim> ");
    assert_eq!(b.recv_line(), Ok(None));
    assert_eq!(b.take_all(), b"JSBSim> ".to_vec());
}

#[test]
fn recv_line_decodes_utf8() {
    let mut b = buffer("h\u{e9} = \u{2603}\n".as_bytes());
    assert_eq!(b.recv_line(), Ok(Some("h\u{e9} = \u{2603}\n".to_string())));
    let mut b = buffer("\u{a0}JSBSim>\u{3000}\nx\n".as_bytes());
    assert_eq!(b.recv_line(), Ok(Some("x\n".to_string())));
}

#[test]
fn recv_line_refuses_a_line_that_is_not_text() {
    let mut b = buffer(b"\xff\xfe\nnext\n");
    assert_eq!(b.recv_line(), Err(Error::NotText));
    assert_eq!(b.recv_line(), Ok(Some("next\n".to_string())));
    let mut b = buffer(b"\n\xc3\n");
    assert_eq!(b.recv_line(), Err(Error::NotText));
    assert_eq!(b.recv_line(), Ok(None));
}

#[test]
fn recv_last_takes_an_unfinished_last_line() {
    let mut b = buffer(b"JSBSim>\nResuming");
    assert_eq!(b.recv_last(), Ok("Resuming".to_string()));
    assert_eq!(b, LineBuffer::new());
    assert_eq!(b.recv_last(), Err(Error::Closed));
}

#[test]
fn recv_last_prefers_a_whole_line() {
    let mut b = buffer(b"a = 1\nb = 2");
    assert_eq!(b.recv_last(), Ok("a = 1\n".to_string()));
    assert_eq!(b.recv_last(), Ok("b = 2".to_string()));
    assert_eq!(b.recv_last(), Err(Error::Closed));
}

#[test]
fn recv_last_finds_nothing_in_noise() {
    assert_eq!(buffer(b"").recv_last(), Err(Error::Closed));
    assert_eq!(buffer(b"\n\nJSBSim> ").recv_last(), Err(Error::Closed));
    assert_eq!(buffer(b"   ").recv_last(), Err(Error::Closed));
}

#[test]
fn recv_last_refuses_what_is_not_text() {
    assert_eq!(buffer(b"\xe2\x82").recv_last(), Err(Error::NotText));
    assert_eq!(buffer(b"\xff\nResuming").recv_last(), Err(Error::NotText));
}
