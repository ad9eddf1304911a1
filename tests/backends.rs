use ai_gateway::echo::{
    answer_chat, create_echo_response, echo_response_with_id, find_last_user_message,
};
use ai_gateway::model::{ChatCompletionRequest, ChatMessage, TtsRequest};
use ai_gateway::speech::{decide_speech, speech_response, wav_from_samples, SpeechAnswer};

#[test]
fn test_find_last_user_message_found() {
    let messages = vec![
        ChatMessage {
            role: "system".into(),
            content: "You are helpful".into(),
        },
        ChatMessage {
            role: "user".into(),
            content: "Hello".into(),
        },
        ChatMessage {
            role: "assistant".into(),
            content: "Hi there".into(),
        },
        ChatMessage {
            role: "user".into(),
            content: "How are you?".into(),
        },
    ];

    let result = find_last_user_message(&messages);
    assert_eq!(result.role, "user");
    assert_eq!(result.content, "How are you?");
}

#[test]
fn test_find_last_user_message_not_found() {
    let messages = vec![ChatMessage {
        role: "system".into(),
        content: "You are helpful".into(),
    }];

    let result = find_last_user_message(&messages);
    assert_eq!(result.role, "user");
    assert_eq!(result.content, "(no user message found)");
}

#[test]
fn test_create_echo_response() {
    let user_msg = ChatMessage {
        role: "user".into(),
        content: "Test message".into(),
    };

    let response = create_echo_response("test-model", &user_msg);

    assert!(!response.id.is_empty());
    assert_eq!(response.choices.len(), 1);
    assert_eq!(response.choices[0].index, 0);
    assert_eq!(response.choices[0].message.role, "assistant");
    assert!(response.choices[0].message.content.contains("test-model"));
    assert!(response.choices[0].message.content.contains("Test message"));
}

#[test]
fn empty_message_list_has_no_user_message() {
    let result = find_last_user_message(&[]);
    assert_eq!(result.role, "user");
    assert_eq!(result.content, "(no user message found)");
}

#[test]
fn echo_text_is_exact() {
    let user_msg = ChatMessage {
        role: "user".into(),
        content: "hi".into(),
    };
    let response = echo_response_with_id("abc".into(), "m1", &user_msg);
    assert_eq!(response.id, "abc");
    assert_eq!(response.choices[0].message.content, "Echo from llm-node (model=m1): hi");
}

#[test]
fn response_ids_are_hyphenated_uuids() {
    let user_msg = ChatMessage {
        role: "user".into(),
        content: "x".into(),
    };
    let a = create_echo_response("m", &user_msg);
    let b = create_echo_response("m", &user_msg);
    assert_eq!(a.id.len(), 36);
    assert_eq!(a.id.matches('-').count(), 4);
    assert_ne!(a.id, b.id);
}

#[test]
fn answer_chat_echoes_last_user_message() {
    let req = ChatCompletionRequest {
        model: "qwen".into(),
        messages: vec![
            ChatMessage {
                role: "user".into(),
                content: "first".into(),
            },
            ChatMessage {
                role: "user".into(),
                content: "second".into(),
            },
            ChatMessage {
                role: "assistant".into(),
                content: "reply".into(),
            },
        ],
    };
    let response = answer_chat(&req);
    assert_eq!(
        response.choices[0].message.content,
        "Echo from llm-node (model=qwen): second"
    );
}

#[test]
fn wav_of_one_second_has_expected_size_and_tags() {
    let samples = vec![0i16; 44100];
    let wav = wav_from_samples(44100, &samples);
    assert_eq!(wav.len(), 44100 * 2 + 44);
    assert_eq!(&wav[0..4], b"RIFF");
    assert_eq!(&wav[8..12], b"WAVE");
    assert_eq!(&wav[12..16], b"fmt ");
    assert_eq!(&wav[36..40], b"data");
}

#[test]
fn wav_header_fields_are_little_endian() {
    let samples = vec![1i16, -1, i16::MAX, i16::MIN];
    let wav = wav_from_samples(44100, &samples);
    assert_eq!(&wav[4..8], &(36u32 + 8).to_le_bytes());
    assert_eq!(&wav[16..20], &16u32.to_le_bytes());
    assert_eq!(&wav[20..22], &1u16.to_le_bytes());
    assert_eq!(&wav[22..24], &1u16.to_le_bytes());
    assert_eq!(&wav[24..28], &44100u32.to_le_bytes());
    assert_eq!(&wav[28..32], &88200u32.to_le_bytes());
    assert_eq!(&wav[32..34], &2u16.to_le_bytes());
    assert_eq!(&wav[34..36], &16u16.to_le_bytes());
    assert_eq!(&wav[40..44], &8u32.to_le_bytes());
    assert_eq!(&wav[44..], &[1u8, 0, 255, 255, 255, 127, 0, 128]);
}

#[test]
fn empty_wav_is_header_only() {
    let wav = wav_from_samples(8000, &vec![]);
    assert_eq!(wav.len(), 44);
    assert_eq!(&wav[4..8], &36u32.to_le_bytes());
}

#[test]
fn only_wav_is_produced() {
    let mut req = TtsRequest {
        input: "hello".into(),
        voice: None,
        format: None,
    };
    assert!(decide_speech(&req) == SpeechAnswer::Tone);
    req.format = Some("wav".into());
    assert!(decide_speech(&req) == SpeechAnswer::Tone);
    req.format = Some("mp3".into());
    assert!(decide_speech(&req) == SpeechAnswer::UnsupportedFormat);
    req.format = Some("wa".into());
    assert!(decide_speech(&req) == SpeechAnswer::UnsupportedFormat);
}

#[test]
fn speech_replies() {
    let ok = speech_response(SpeechAnswer::Tone, vec![1, 2, 3]);
    assert_eq!(ok.status, 200);
    assert_eq!(ok.content_type, "audio/wav");
    assert_eq!(ok.body, vec![1, 2, 3]);
    let bad = speech_response(SpeechAnswer::UnsupportedFormat, vec![1, 2, 3]);
    assert_eq!(bad.status, 400);
    assert_eq!(
        bad.body,
        b"Unsupported format; only 'wav' is implemented".to_vec()
    );
}
