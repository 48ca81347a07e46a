use izzymonitor::audio::{
    beep_amplitude, beep_period, duration_fits, sample_count, MAX_DURATION_MS, SAMPLE_RATE,
};
use izzymonitor::network::{
    append_chunk, decimal, directions_query, get_trip_directions, query_body, query_request,
    response_body, send_audio_for_processing, TripDirections, API_ENDPOINT, REQUEST_BUFFER_SIZE,
    RESPONSE_BUFFER_SIZE, SERVER_HOST, SERVER_PORT,
};

#[test]
fn server_settings() {
    assert_eq!(SERVER_HOST, "your-server.com");
    assert_eq!(SERVER_PORT, 80);
    assert_eq!(API_ENDPOINT, "/api");
    assert_eq!(REQUEST_BUFFER_SIZE, 2048);
    assert_eq!(RESPONSE_BUFFER_SIZE, 4096);
}

#[test]
fn decimal_writes_numbers_without_leading_zeros() {
    assert_eq!(decimal(0), "0");
    assert_eq!(decimal(7), "7");
    assert_eq!(decimal(10), "10");
    assert_eq!(decimal(109), "109");
    assert_eq!(decimal(1234567890), "1234567890");
    assert_eq!(decimal(usize::MAX), usize::MAX.to_string());
}

#[test]
fn query_body_wraps_the_query() {
    assert_eq!(query_body("hello"), "{\"query\": \"hello\"}");
    assert_eq!(query_body(""), "{\"query\": \"\"}");
}

#[test]
fn request_carries_the_body_and_its_length() {
    let request = query_request("where am I");
    assert_eq!(
        request,
        "POST /api/query HTTP/1.1\r\n\
         Host: your-server.com\r\n\
         Connection: close\r\n\
         Content-Type: application/json\r\n\
         Content-Length: 23\r\n\
         \r\n\
         {\"query\": \"where am I\"}"
    );
}

#[test]
fn request_counts_the_length_in_bytes() {
    // The two letters with accents take two bytes each.
    let request = query_request("café à");
    assert!(request.contains("Content-Length: 21\r\n\r\n"));
    assert!(request.ends_with("{\"query\": \"café à\"}"));
    assert_eq!("{\"query\": \"café à\"}".len(), 21);
}

#[test]
fn chunks_that_are_not_text_are_dropped() {
    let mut response = String::new();
    append_chunk(&mut response, b"HTTP/1.1 200 OK\r\n");
    append_chunk(&mut response, &[0xFF, 0xFE, 0x41]);
    append_chunk(&mut response, b"\r\nbody");
    append_chunk(&mut response, &[0xC3]);
    append_chunk(&mut response, "é".as_bytes());
    append_chunk(&mut response, b"");
    assert_eq!(response, "HTTP/1.1 200 OK\r\n\r\nbodyé");
}

#[test]
fn body_follows_the_first_blank_line() {
    let response = "HTTP/1.1 200 OK\r\nContent-Type: text/plain\r\n\r\nturn left\r\n\r\nthen right";
    assert_eq!(response_body(response), Ok("turn left\r\n\r\nthen right".to_string()));
    assert_eq!(response_body("\r\n\r\n"), Ok(String::new()));
    assert_eq!(response_body("\r\n\r\nx"), Ok("x".to_string()));
    assert_eq!(response_body("a\r\n\r\n\r\n"), Ok("\r\n".to_string()));
}

#[test]
fn body_keeps_text_beyond_ascii() {
    let response = "X-Café: à\r\n\r\nrue de l'Église, 3 km → droite";
    assert_eq!(response_body(response), Ok("rue de l'Église, 3 km → droite".to_string()));
    assert_eq!(response_body("é\r\n\r\né"), Ok("é".to_string()));
}

#[test]
fn response_without_blank_line_is_invalid() {
    assert_eq!(response_body(""), Err("Invalid HTTP response"));
    assert_eq!(response_body("\r\n\r"), Err("Invalid HTTP response"));
    assert_eq!(response_body("HTTP/1.1 200 OK\r\nno end"), Err("Invalid HTTP response"));
    assert_eq!(response_body("one\n\ntwo\r\r\n\n"), Err("Invalid HTTP response"));
    assert_eq!(response_body("é\r\né\r\n"), Err("Invalid HTTP response"));
}

#[test]
fn chunks_then_body() {
    let mut response = String::new();
    for chunk in [&b"HTTP/1.1 200 OK\r"[..], b"\n\r", &[0x80], b"\nall ", b"well"] {
        append_chunk(&mut response, chunk);
    }
    assert_eq!(response_body(&response), Ok("all well".to_string()));
}

#[test]
fn directions_query_names_both_places() {
    assert_eq!(directions_query("Home", "Work"), "directions from Home to Work");
}

#[test]
fn directions_pass_a_failure_on() {
    assert_eq!(
        get_trip_directions("Home", "Work", Err("DNS resolution failed")),
        Err("DNS resolution failed")
    );
}

#[test]
fn directions_for_any_answer_are_the_stock_ones() {
    let expected = TripDirections {
        from: "Home".to_string(),
        to: "Work".to_string(),
        duration: "25 min".to_string(),
        distance: "3.2 km".to_string(),
        instructions: vec![
            "Head north on Main St".to_string(),
            "Turn right onto First Ave".to_string(),
            "Continue for 500m".to_string(),
            "Destination will be on your left".to_string(),
        ],
    };
    assert_eq!(get_trip_directions("Home", "Work", Ok("anything".to_string())), Ok(expected));
}

#[test]
fn audio_query_holds_the_placeholder() {
    let expected = "{\"audio_data\": \"audio_data_placeholder\"}";
    assert_eq!(send_audio_for_processing(&[]), expected);
    assert_eq!(send_audio_for_processing(&[1, -2, 3]), expected);
}

#[test]
fn sample_count_follows_the_rate() {
    assert_eq!(SAMPLE_RATE, 44100);
    assert_eq!(sample_count(0), 0);
    assert_eq!(sample_count(1), 44);
    assert_eq!(sample_count(1000), 44100);
    assert_eq!(sample_count(250), 11025);
    assert_eq!(sample_count(MAX_DURATION_MS), 4_294_943);
    assert!(duration_fits(MAX_DURATION_MS));
    assert!(!duration_fits(MAX_DURATION_MS + 1));
    assert!(44100u32.checked_mul(MAX_DURATION_MS).is_some());
    assert!(44100u32.checked_mul(MAX_DURATION_MS + 1).is_none());
}

#[test]
fn beep_parameters() {
    assert_eq!(beep_amplitude(0), 0);
    assert_eq!(beep_amplitude(255), 32767);
    assert_eq!(beep_amplitude(128), 16447);
    assert_eq!(beep_amplitude(1), 128);
    assert_eq!(beep_period(440), 100);
    assert_eq!(beep_period(44100), 1);
    assert_eq!(beep_period(44101), 0);
    assert_eq!(beep_period(1), 44100);
}
