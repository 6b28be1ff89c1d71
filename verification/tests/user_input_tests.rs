use projectying::user_input::{
    build_request_user_input_preview, build_request_user_input_response_preview, build_user_input_questions,
    derive_request_user_input_brief, summarize_request_user_input_answer, validate_request_user_input_arguments,
    RequestUserInputArgs, RequestUserInputOptionArgs, RequestUserInputQuestionArgs, UserInputAnswer,
    UserInputError, UserInputResponse, REQUEST_USER_INPUT_OTHER_NOTE_PREFIX,
};

fn option(label: &str, description: &str) -> RequestUserInputOptionArgs {
    RequestUserInputOptionArgs { label: label.to_string(), description: description.to_string() }
}

fn question(id: &str, header: &str, text: &str, options: Vec<RequestUserInputOptionArgs>) -> RequestUserInputQuestionArgs {
    RequestUserInputQuestionArgs {
        id: id.to_string(),
        header: header.to_string(),
        question: text.to_string(),
        options,
    }
}

fn numbered(count: usize, options: fn() -> Vec<RequestUserInputOptionArgs>) -> RequestUserInputArgs {
    RequestUserInputArgs {
        questions: (1..=count)
            .map(|index| {
                question(
                    format!("item_{index}").as_str(),
                    format!("选项{index}").as_str(),
                    format!("第 {index} 题怎么处理？").as_str(),
                    options(),
                )
            })
            .collect(),
    }
}

#[test]
fn parse_request_user_input_accepts_ten_questions() {
    let args = numbered(10, || {
        vec![option("方案A", "推荐方案"), option("方案B", "备选方案"), option("方案C", "保守方案")]
    });
    validate_request_user_input_arguments(&args).expect("parse args");
    assert_eq!(args.questions.len(), 10);
}

#[test]
fn parse_request_user_input_rejects_more_than_ten_questions() {
    let args = numbered(11, || vec![option("方案A", "推荐方案")]);
    let err = validate_request_user_input_arguments(&args).expect_err("too many");
    assert!(err.message().contains("最多只支持 10 个 question"));
}

#[test]
fn parse_request_user_input_rejects_more_than_three_suggested_options() {
    let args = RequestUserInputArgs {
        questions: vec![question(
            "mode",
            "模式",
            "这轮怎么走？",
            vec![
                option("方案A", "推荐方案"),
                option("方案B", "第二方案"),
                option("方案C", "第三方案"),
                option("方案D", "超出上限"),
            ],
        )],
    };
    let err = validate_request_user_input_arguments(&args).expect_err("too many");
    assert!(err.message().contains("最多只支持 3 个建议选项"));
}

#[test]
fn parse_request_user_input_rejects_duplicate_question_ids() {
    let args = RequestUserInputArgs {
        questions: vec![
            question("mode", "模式一", "第一题怎么走？", vec![option("方案A", "推荐方案")]),
            question("mode", "模式二", "第二题怎么走？", vec![option("方案B", "备选方案")]),
        ],
    };
    let err = validate_request_user_input_arguments(&args).expect_err("duplicate");
    assert!(err.message().contains("id 重复"));
    assert_eq!(err, UserInputError::DuplicateId(1, "mode".to_string()));
}

#[test]
fn parse_request_user_input_rejects_header_longer_than_twelve_chars() {
    let args = RequestUserInputArgs {
        questions: vec![question(
            "mode",
            "这是一个明显过长的标题甲乙丙丁",
            "这轮怎么走？",
            vec![option("方案A", "推荐方案")],
        )],
    };
    let err = validate_request_user_input_arguments(&args).expect_err("long header");
    assert!(err.message().contains("header 不能超过 12 个字符"));
}

#[test]
fn request_user_input_checks_in_order() {
    assert_eq!(
        validate_request_user_input_arguments(&RequestUserInputArgs { questions: Vec::new() }),
        Err(UserInputError::NoQuestions)
    );
    let blank_option = RequestUserInputArgs {
        questions: vec![question("a", "甲", "问？", vec![option("ok", "fine"), option(" ", "x")])],
    };
    let err = validate_request_user_input_arguments(&blank_option).unwrap_err();
    assert_eq!(err, UserInputError::EmptyOptionLabel(0, 1));
    assert_eq!(err.message(), "question[0].options[1].label 不能为空");
    let no_options = RequestUserInputArgs { questions: vec![question("a", "甲", "问？", Vec::new())] };
    assert_eq!(validate_request_user_input_arguments(&no_options), Err(UserInputError::NoOptions(0)));
}

fn two_questions() -> RequestUserInputArgs {
    RequestUserInputArgs {
        questions: vec![
            question("mode", "模式", "这轮怎么走？", vec![option("方案A", "推荐方案"), option("方案B", "备选方案")]),
            question("scope", "范围", "要改哪些部分？", vec![option("仅 UI", "只改界面")]),
        ],
    }
}

#[test]
fn request_user_input_response_preview_lists_answers() {
    let args = two_questions();
    validate_request_user_input_arguments(&args).expect("args");
    let response = UserInputResponse {
        answers: vec![
            ("mode".to_string(), UserInputAnswer { answers: vec!["方案B".to_string()] }),
            (
                "scope".to_string(),
                UserInputAnswer {
                    answers: vec![format!("{}只改 ui 和 prompt", REQUEST_USER_INPUT_OTHER_NOTE_PREFIX)],
                },
            ),
        ],
    };
    let preview = build_request_user_input_response_preview(&args, &response);
    assert!(preview.contains("已完成 2/2 项对账"));
    assert!(preview.contains("1. 模式 · 方案B"));
    assert!(preview.contains("2. 范围 · 自定义：只改 ui 和 prompt"));
}

#[test]
fn request_user_input_preview_hides_option_list() {
    let args = RequestUserInputArgs {
        questions: vec![question(
            "mode",
            "模式",
            "这轮怎么走？",
            vec![option("方案A", "推荐方案"), option("方案B", "备选方案")],
        )],
    };
    validate_request_user_input_arguments(&args).expect("args");
    let preview = build_request_user_input_preview(&args);
    assert!(preview.contains("1. 模式 · 这轮怎么走？"));
    assert!(!preview.contains("方案A"));
    assert!(!preview.contains("方案B"));
    assert!(!preview.contains("自定义"));
}

#[test]
fn user_input_briefs_and_answers() {
    assert_eq!(derive_request_user_input_brief(&two_questions()), "向用户对账 模式 +1 项");
    assert_eq!(derive_request_user_input_brief(&RequestUserInputArgs { questions: Vec::new() }), "发起对账");
    assert_eq!(
        summarize_request_user_input_answer(&UserInputAnswer { answers: vec!["  ".to_string()] }),
        None
    );
    assert_eq!(
        summarize_request_user_input_answer(&UserInputAnswer {
            answers: vec!["甲".to_string(), " 乙 ".to_string()]
        }),
        Some("甲 / 乙".to_string())
    );
    let sheet = build_user_input_questions(&RequestUserInputArgs {
        questions: vec![question(" id ", " 头 ", " 问 ", vec![option(" a ", " b ")])],
    });
    assert_eq!(sheet[0].id, "id");
    assert_eq!(sheet[0].options[0].label, "a");
    assert!(sheet[0].is_other);
    assert!(!sheet[0].is_secret);
}
