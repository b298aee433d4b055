//! What the texts on the Chat surface tell: every field under its own name.
use vstd::prelude::*;

use crate::json;
use crate::json::JsonView;
use crate::json_string;
use crate::json_text;
use crate::models::chat::ChatCompletionRequest;
use crate::models::chat::ChatFunctionCall;
use crate::models::chat::ChatMessage;
use crate::models::chat::ChatThinking;
use crate::models::chat::ChatTool;
use crate::models::chat::ChatToolCall;
use crate::models::chat::ChatToolDefinition;
use crate::models::chat::StreamOptions;
use crate::models::chat_text;
use crate::models::request_text;
use crate::text;
use crate::written_text;

verus! {

/// A function call tells each of its fields under its own name.
pub proof fn law_chat_function_call_text_tells(item: ChatFunctionCall)
    requires
        chat_text::function_call_text(item) is Some,
    ensures
        item.name is Some
            ==> written_text::tells(
                chat_text::function_call_text(item),
                "name"@,
                json_string::quoted((item.name->0)@),
            ),
        item.arguments is Some
            ==> written_text::tells(
                chat_text::function_call_text(item),
                "arguments"@,
                json::rendered_json((item.arguments->0)@)->0,
            ),
{
    broadcast use written_text::lemma_put;

    let m = Some(Seq::<Seq<char>>::empty());
    let m = json_text::put_opt_text(m, "name"@, text::opt_view(item.name));
    let m = match item.arguments {
        Some(x) => json_text::put(m, "arguments"@, json::rendered_json(x@)),
        None => m,
    };
    if item.name is Some {
        written_text::lemma_object_tells(m, "name"@, json_string::quoted((item.name->0)@));
    }
    if item.arguments is Some {
        written_text::lemma_object_tells(
            m,
            "arguments"@,
            json::rendered_json((item.arguments->0)@)->0,
        );
    }
}

/// A tool call tells each of its fields under its own name.
pub proof fn law_chat_tool_call_text_tells(item: ChatToolCall)
    requires
        chat_text::tool_call_text(item) is Some,
    ensures
        item.id is Some
            ==> written_text::tells(
                chat_text::tool_call_text(item),
                "id"@,
                json_string::quoted((item.id->0)@),
            ),
        item.index is Some
            ==> written_text::tells(
                chat_text::tool_call_text(item),
                "index"@,
                text::decimal((item.index->0) as nat),
            ),
        written_text::tells(
            chat_text::tool_call_text(item),
            "type"@,
            json_string::quoted(item.kind@),
        ),
        written_text::tells(
            chat_text::tool_call_text(item),
            "function"@,
            chat_text::function_call_text(item.function)->0,
        ),
{
    broadcast use written_text::lemma_put;

    let m = Some(Seq::<Seq<char>>::empty());
    let m = json_text::put_opt_text(m, "id"@, text::opt_view(item.id));
    let m = match item.index {
        Some(x) => json_text::put(m, "index"@, Some(text::decimal(x as nat))),
        None => m,
    };
    let m = json_text::put_text(m, "type"@, item.kind@);
    let m = json_text::put(m, "function"@, chat_text::function_call_text(item.function));
    if item.id is Some {
        written_text::lemma_object_tells(m, "id"@, json_string::quoted((item.id->0)@));
    }
    if item.index is Some {
        written_text::lemma_object_tells(m, "index"@, text::decimal((item.index->0) as nat));
    }
    written_text::lemma_object_tells(m, "type"@, json_string::quoted(item.kind@));
    written_text::lemma_object_tells(
        m,
        "function"@,
        chat_text::function_call_text(item.function)->0,
    );
}

/// Reasoning tells each of its fields under its own name.
pub proof fn law_chat_thinking_text_tells(item: ChatThinking)
    requires
        chat_text::thinking_text(item) is Some,
    ensures
        written_text::tells(
            chat_text::thinking_text(item),
            "content"@,
            json_string::quoted(item.content@),
        ),
        item.signature is Some
            ==> written_text::tells(
                chat_text::thinking_text(item),
                "signature"@,
                json_string::quoted((item.signature->0)@),
            ),
{
    broadcast use written_text::lemma_put;

    let m = Some(Seq::<Seq<char>>::empty());
    let m = json_text::put_text(m, "content"@, item.content@);
    let m = json_text::put_opt_text(m, "signature"@, text::opt_view(item.signature));
    written_text::lemma_object_tells(m, "content"@, json_string::quoted(item.content@));
    if item.signature is Some {
        written_text::lemma_object_tells(
            m,
            "signature"@,
            json_string::quoted((item.signature->0)@),
        );
    }
}

/// A message tells each of its fields under its own name.
pub proof fn law_chat_message_text_tells(item: ChatMessage)
    requires
        chat_text::message_text(item) is Some,
    ensures
        written_text::tells(
            chat_text::message_text(item),
            "role"@,
            json_string::quoted(item.role@),
        ),
        item.content is Some
            ==> written_text::tells(
                chat_text::message_text(item),
                "content"@,
                json::rendered_json((item.content->0)@)->0,
            ),
        item.tool_call_id is Some
            ==> written_text::tells(
                chat_text::message_text(item),
                "tool_call_id"@,
                json_string::quoted((item.tool_call_id->0)@),
            ),
        item.name is Some
            ==> written_text::tells(
                chat_text::message_text(item),
                "name"@,
                json_string::quoted((item.name->0)@),
            ),
        item.reasoning_content is Some
            ==> written_text::tells(
                chat_text::message_text(item),
                "reasoning_content"@,
                json_string::quoted((item.reasoning_content->0)@),
            ),
        item.thinking is Some
            ==> written_text::tells(
                chat_text::message_text(item),
                "thinking"@,
                chat_text::thinking_text((item.thinking->0))->0,
            ),
        item.tool_calls is Some
            ==> written_text::tells(
                chat_text::message_text(item),
                "tool_calls"@,
                chat_text::tool_calls_text((item.tool_calls->0)@)->0,
            ),
{
    broadcast use written_text::lemma_put;

    let m = Some(Seq::<Seq<char>>::empty());
    let m = json_text::put_text(m, "role"@, item.role@);
    let m = match item.content {
        Some(x) => json_text::put(m, "content"@, json::rendered_json(x@)),
        None => m,
    };
    let m = json_text::put_opt_text(m, "tool_call_id"@, text::opt_view(item.tool_call_id));
    let m = json_text::put_opt_text(m, "name"@, text::opt_view(item.name));
    let m = json_text::put_opt_text(
        m,
        "reasoning_content"@,
        text::opt_view(item.reasoning_content),
    );
    let m = match item.thinking {
        Some(x) => json_text::put(m, "thinking"@, chat_text::thinking_text(x)),
        None => m,
    };
    let m = match item.tool_calls {
        Some(x) => json_text::put(m, "tool_calls"@, chat_text::tool_calls_text(x@)),
        None => m,
    };
    written_text::lemma_object_tells(m, "role"@, json_string::quoted(item.role@));
    if item.content is Some {
        written_text::lemma_object_tells(m, "content"@, json::rendered_json((item.content->0)@)->0);
    }
    if item.tool_call_id is Some {
        written_text::lemma_object_tells(
            m,
            "tool_call_id"@,
            json_string::quoted((item.tool_call_id->0)@),
        );
    }
    if item.name is Some {
        written_text::lemma_object_tells(m, "name"@, json_string::quoted((item.name->0)@));
    }
    if item.reasoning_content is Some {
        written_text::lemma_object_tells(
            m,
            "reasoning_content"@,
            json_string::quoted((item.reasoning_content->0)@),
        );
    }
    if item.thinking is Some {
        written_text::lemma_object_tells(
            m,
            "thinking"@,
            chat_text::thinking_text((item.thinking->0))->0,
        );
    }
    if item.tool_calls is Some {
        written_text::lemma_object_tells(
            m,
            "tool_calls"@,
            chat_text::tool_calls_text((item.tool_calls->0)@)->0,
        );
    }
}

/// The definition of a tool tells each of its fields under its own name.
pub proof fn law_chat_definition_text_tells(item: ChatToolDefinition)
    requires
        chat_text::definition_text(item) is Some,
    ensures
        written_text::tells(
            chat_text::definition_text(item),
            "name"@,
            json_string::quoted(item.name@),
        ),
        written_text::tells(
            chat_text::definition_text(item),
            "description"@,
            json_string::quoted(item.description@),
        ),
        item.parameters is Some
            ==> written_text::tells(
                chat_text::definition_text(item),
                "parameters"@,
                json::rendered_json((item.parameters->0)@)->0,
            ),
        written_text::tells(
            chat_text::definition_text(item),
            "strict"@,
            json_text::flag_text(item.strict),
        ),
{
    broadcast use written_text::lemma_put;

    let m = Some(Seq::<Seq<char>>::empty());
    let m = json_text::put_text(m, "name"@, item.name@);
    let m = json_text::put_text(m, "description"@, item.description@);
    let m = match item.parameters {
        Some(x) => json_text::put(m, "parameters"@, json::rendered_json(x@)),
        None => m,
    };
    let m = json_text::put(m, "strict"@, Some(json_text::flag_text(item.strict)));
    written_text::lemma_object_tells(m, "name"@, json_string::quoted(item.name@));
    written_text::lemma_object_tells(m, "description"@, json_string::quoted(item.description@));
    if item.parameters is Some {
        written_text::lemma_object_tells(
            m,
            "parameters"@,
            json::rendered_json((item.parameters->0)@)->0,
        );
    }
    written_text::lemma_object_tells(m, "strict"@, json_text::flag_text(item.strict));
}

/// A tool tells each of its fields under its own name.
pub proof fn law_chat_tool_text_tells(item: ChatTool)
    requires
        chat_text::tool_text(item) is Some,
    ensures
        written_text::tells(chat_text::tool_text(item), "type"@, json_string::quoted(item.kind@)),
        written_text::tells(
            chat_text::tool_text(item),
            "function"@,
            chat_text::definition_text(item.function)->0,
        ),
{
    broadcast use written_text::lemma_put;

    let m = Some(Seq::<Seq<char>>::empty());
    let m = json_text::put_text(m, "type"@, item.kind@);
    let m = json_text::put(m, "function"@, chat_text::definition_text(item.function));
    written_text::lemma_object_tells(m, "type"@, json_string::quoted(item.kind@));
    written_text::lemma_object_tells(m, "function"@, chat_text::definition_text(item.function)->0);
}

/// What is asked of a stream tells each of its fields under its own name.
pub proof fn law_chat_stream_options_text_tells(item: StreamOptions)
    requires
        chat_text::stream_options_text(item) is Some,
    ensures
        written_text::tells(
            chat_text::stream_options_text(item),
            "include_usage"@,
            json_text::flag_text(item.include_usage),
        ),
{
    broadcast use written_text::lemma_put;

    let m = Some(Seq::<Seq<char>>::empty());
    let m = json_text::put(m, "include_usage"@, Some(json_text::flag_text(item.include_usage)));
    written_text::lemma_object_tells(m, "include_usage"@, json_text::flag_text(item.include_usage));
}

proof fn lemma_other_fields(m: json_text::Fields, extra: Seq<(Seq<char>, JsonView)>, n: int)
    requires
        0 <= n <= extra.len(),
    ensures
        written_text::within(m, chat_text::with_other_fields(m, extra, n)),
    decreases n,
{
    broadcast use written_text::lemma_put;

    reveal(written_text::within);
    if n > 0 {
        lemma_other_fields(m, extra, n - 1);
    }
}

/// Every other field of a request is told as it is, under its name.
pub proof fn law_chat_request_text_tells_other_fields(request: ChatCompletionRequest, i: int)
    requires
        0 <= i < request.extra_body@.len(),
        chat_text::chat_request_text(request) is Some,
        json::rendered_json(request.extra_body@[i].1) is Some,
    ensures
        written_text::tells(
            chat_text::chat_request_text(request),
            request.extra_body@[i].0,
            json::rendered_json(request.extra_body@[i].1)->0,
        ),
{
    let m = chat_text::typed_text(request);
    let extra = request.extra_body@;
    let n = extra.len() as int;
    lemma_other_field(m, extra, n, i);
    written_text::lemma_object_tells(
        chat_text::with_other_fields(m, extra, n),
        extra[i].0,
        json::rendered_json(extra[i].1)->0,
    );
}

proof fn lemma_other_field(
    m: json_text::Fields,
    extra: Seq<(Seq<char>, JsonView)>,
    n: int,
    i: int,
)
    requires
        0 <= i < n <= extra.len(),
        chat_text::with_other_fields(m, extra, n) is Some,
        json::rendered_json(extra[i].1) is Some,
    ensures
        chat_text::with_other_fields(m, extra, n)->0.contains(
            json_text::field(extra[i].0, json::rendered_json(extra[i].1)->0),
        ),
    decreases n,
{
    broadcast use written_text::lemma_put;

    if i < n - 1 {
        lemma_other_field(m, extra, n - 1, i);
    }
}

/// A request tells each of its typed fields under its own name, whatever else it tells.
pub proof fn law_chat_request_text_tells(request: ChatCompletionRequest)
    requires
        chat_text::chat_request_text(request) is Some,
    ensures
        written_text::tells(
            chat_text::chat_request_text(request),
            "model"@,
            json_string::quoted(request.model@),
        ),
        written_text::tells(
            chat_text::chat_request_text(request),
            "messages"@,
            chat_text::messages_text(request.messages@)->0,
        ),
        written_text::tells(
            chat_text::chat_request_text(request),
            "stream"@,
            json_text::flag_text(request.stream),
        ),
        request.tools is Some
            ==> written_text::tells(
                chat_text::chat_request_text(request),
                "tools"@,
                chat_text::tools_text((request.tools->0)@)->0,
            ),
        request.tool_choice is Some
            ==> written_text::tells(
                chat_text::chat_request_text(request),
                "tool_choice"@,
                json::rendered_json((request.tool_choice->0)@)->0,
            ),
        written_text::tells(
            chat_text::chat_request_text(request),
            "parallel_tool_calls"@,
            json_text::flag_text(request.parallel_tool_calls),
        ),
        request.reasoning_effort is Some
            ==> written_text::tells(
                chat_text::chat_request_text(request),
                "reasoning_effort"@,
                json_string::quoted((request.reasoning_effort->0)@),
            ),
        request.response_format is Some
            ==> written_text::tells(
                chat_text::chat_request_text(request),
                "response_format"@,
                json::rendered_json((request.response_format->0)@)->0,
            ),
        request.stream_options is Some
            ==> written_text::tells(
                chat_text::chat_request_text(request),
                "stream_options"@,
                chat_text::stream_options_text((request.stream_options->0))->0,
            ),
        request.temperature is Some
            ==> written_text::tells(
                chat_text::chat_request_text(request),
                "temperature"@,
                request_text::number_text((request.temperature->0))->0,
            ),
        request.top_p is Some
            ==> written_text::tells(
                chat_text::chat_request_text(request),
                "top_p"@,
                request_text::number_text((request.top_p->0))->0,
            ),
        request.max_output_tokens is Some
            ==> written_text::tells(
                chat_text::chat_request_text(request),
                "max_tokens"@,
                text::signed((request.max_output_tokens->0) as int),
            ),
        request.frequency_penalty is Some
            ==> written_text::tells(
                chat_text::chat_request_text(request),
                "frequency_penalty"@,
                request_text::number_text((request.frequency_penalty->0))->0,
            ),
        request.presence_penalty is Some
            ==> written_text::tells(
                chat_text::chat_request_text(request),
                "presence_penalty"@,
                request_text::number_text((request.presence_penalty->0))->0,
            ),
        request.stop is Some
            ==> written_text::tells(
                chat_text::chat_request_text(request),
                "stop"@,
                json_text::strings_text(text::strings_view((request.stop->0)@)),
            ),
{
    let m0 = Some(Seq::<Seq<char>>::empty());
    let m1 = written_text::put_where(m0, "model"@, true, Some(json_string::quoted(request.model@)));
    let m2 = written_text::put_where(
        m1,
        "messages"@,
        true,
        chat_text::messages_text(request.messages@),
    );
    let m3 = written_text::put_where(
        m2,
        "stream"@,
        true,
        Some(json_text::flag_text(request.stream)),
    );
    let m4 = written_text::put_where(
        m3,
        "tools"@,
        request.tools is Some,
        chat_text::tools_text((request.tools->0)@),
    );
    let m5 = written_text::put_where(
        m4,
        "tool_choice"@,
        request.tool_choice is Some,
        json::rendered_json((request.tool_choice->0)@),
    );
    let m6 = written_text::put_where(
        m5,
        "parallel_tool_calls"@,
        true,
        Some(json_text::flag_text(request.parallel_tool_calls)),
    );
    let m7 = written_text::put_where(
        m6,
        "reasoning_effort"@,
        request.reasoning_effort is Some,
        Some(json_string::quoted((request.reasoning_effort->0)@)),
    );
    let m8 = written_text::put_where(
        m7,
        "response_format"@,
        request.response_format is Some,
        json::rendered_json((request.response_format->0)@),
    );
    let m9 = written_text::put_where(
        m8,
        "stream_options"@,
        request.stream_options is Some,
        chat_text::stream_options_text((request.stream_options->0)),
    );
    let m10 = written_text::put_where(
        m9,
        "temperature"@,
        request.temperature is Some,
        request_text::number_text((request.temperature->0)),
    );
    let m11 = written_text::put_where(
        m10,
        "top_p"@,
        request.top_p is Some,
        request_text::number_text((request.top_p->0)),
    );
    let m12 = written_text::put_where(
        m11,
        "max_tokens"@,
        request.max_output_tokens is Some,
        Some(text::signed((request.max_output_tokens->0) as int)),
    );
    let m13 = written_text::put_where(
        m12,
        "frequency_penalty"@,
        request.frequency_penalty is Some,
        request_text::number_text((request.frequency_penalty->0)),
    );
    let m14 = written_text::put_where(
        m13,
        "presence_penalty"@,
        request.presence_penalty is Some,
        request_text::number_text((request.presence_penalty->0)),
    );
    let m15 = written_text::put_where(
        m14,
        "stop"@,
        request.stop is Some,
        Some(json_text::strings_text(text::strings_view((request.stop->0)@))),
    );
    assert(chat_text::typed_text(request) == m15);
    let all = chat_text::with_other_fields(
        m15,
        request.extra_body@,
        request.extra_body@.len() as int,
    );
    lemma_other_fields(m15, request.extra_body@, request.extra_body@.len() as int);
    written_text::lemma_put_where_tells(
        m14,
        "stop"@,
        request.stop is Some,
        Some(json_text::strings_text(text::strings_view((request.stop->0)@))),
        all,
    );
    written_text::lemma_put_where_tells(
        m13,
        "presence_penalty"@,
        request.presence_penalty is Some,
        request_text::number_text((request.presence_penalty->0)),
        all,
    );
    written_text::lemma_put_where_tells(
        m12,
        "frequency_penalty"@,
        request.frequency_penalty is Some,
        request_text::number_text((request.frequency_penalty->0)),
        all,
    );
    written_text::lemma_put_where_tells(
        m11,
        "max_tokens"@,
        request.max_output_tokens is Some,
        Some(text::signed((request.max_output_tokens->0) as int)),
        all,
    );
    written_text::lemma_put_where_tells(
        m10,
        "top_p"@,
        request.top_p is Some,
        request_text::number_text((request.top_p->0)),
        all,
    );
    written_text::lemma_put_where_tells(
        m9,
        "temperature"@,
        request.temperature is Some,
        request_text::number_text((request.temperature->0)),
        all,
    );
    written_text::lemma_put_where_tells(
        m8,
        "stream_options"@,
        request.stream_options is Some,
        chat_text::stream_options_text((request.stream_options->0)),
        all,
    );
    written_text::lemma_put_where_tells(
        m7,
        "response_format"@,
        request.response_format is Some,
        json::rendered_json((request.response_format->0)@),
        all,
    );
    written_text::lemma_put_where_tells(
        m6,
        "reasoning_effort"@,
        request.reasoning_effort is Some,
        Some(json_string::quoted((request.reasoning_effort->0)@)),
        all,
    );
    written_text::lemma_put_where_tells(
        m5,
        "parallel_tool_calls"@,
        true,
        Some(json_text::flag_text(request.parallel_tool_calls)),
        all,
    );
    written_text::lemma_put_where_tells(
        m4,
        "tool_choice"@,
        request.tool_choice is Some,
        json::rendered_json((request.tool_choice->0)@),
        all,
    );
    written_text::lemma_put_where_tells(
        m3,
        "tools"@,
        request.tools is Some,
        chat_text::tools_text((request.tools->0)@),
        all,
    );
    written_text::lemma_put_where_tells(
        m2,
        "stream"@,
        true,
        Some(json_text::flag_text(request.stream)),
        all,
    );
    written_text::lemma_put_where_tells(
        m1,
        "messages"@,
        true,
        chat_text::messages_text(request.messages@),
        all,
    );
    written_text::lemma_put_where_tells(
        m0,
        "model"@,
        true,
        Some(json_string::quoted(request.model@)),
        all,
    );

}

} // verus!
