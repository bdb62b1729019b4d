//! Laws of the codec, stated over the documents that frames hold.

use crate::codec::{frame_holds, is_decoded_frame, FromJson, RoundTrip, ToJson};
use crate::commands::{
    is_data_reply, is_error_reply, is_login_reply, lemma_streaming_command_names, reply_kind,
    BaseCommand, ReplyKind, Response, StreamingCommand,
};
use crate::error::ErrorKind;
use crate::json::{Doc, Json};
use crate::wire::json_parse;
use vstd::prelude::*;

verus! {

/// Decoding a reply is deterministic. Two decodings of one frame both fail
/// or both succeed, and if they succeed they give the same variant: the one
/// that the document of the frame is read as.
pub proof fn lemma_reply_decoding_is_deterministic<D: FromJson>(
    frame: Seq<u8>,
    first: Result<Response<D>, ErrorKind>,
    second: Result<Response<D>, ErrorKind>,
)
    requires
        is_decoded_frame(first, frame),
        is_decoded_frame(second, frame),
    ensures
        first is Ok <==> second is Ok,
        first is Ok ==> json_parse(frame) is Some,
        first is Ok ==> reply_kind::<D>(json_parse(frame)->Some_0) == Some(first->Ok_0.kind()),
        first is Ok ==> first->Ok_0.kind() == second->Ok_0.kind(),
{
}

/// The variant of a reply is the first whose shape the document has, in the
/// order login reply, reply with data, rejection. A document of none of the
/// three shapes is no reply.
pub proof fn lemma_reply_variants_in_order<D: FromJson>(doc: Doc)
    ensures
        is_login_reply(doc) ==> reply_kind::<D>(doc) == Some(ReplyKind::LoginSuccess),
        !is_login_reply(doc) && is_data_reply::<D>(doc) ==> reply_kind::<D>(doc) == Some(
            ReplyKind::Success,
        ),
        !is_login_reply(doc) && !is_data_reply::<D>(doc) && is_error_reply(doc) ==> reply_kind::<D>(
            doc,
        ) == Some(ReplyKind::Error),
        !is_login_reply(doc) && !is_data_reply::<D>(doc) && !is_error_reply(doc) ==> !Response::<
            D,
        >::decodes(doc),
{
}

/// The reply of a server that echoes the arguments of a command back as
/// `returnData`.
pub open spec fn echo_reply(arguments: Doc) -> Doc {
    Doc::Object(Map::empty().insert("status"@, Doc::Bool(true)).insert("returnData"@, arguments))
}

/// The arguments of a command are the member `arguments` of its document.
pub proof fn lemma_command_arguments<S: ToJson>(command: BaseCommand<S>)
    ensures
        command.doc().member("arguments"@) == Some(command.arguments.doc()),
{
}

/// Round trip. Where a server echoes the arguments of a command back as
/// `returnData`, its reply decodes, as a reply with data, and the data are
/// the arguments of the command.
pub proof fn lemma_echo_round_trip<S: ToJson>(command: BaseCommand<S>, reply: Response<Json>)
    requires
        reply.is_value_of(echo_reply(command.doc().member("arguments"@)->Some_0)),
    ensures
        Response::<Json>::decodes(echo_reply(command.arguments.doc())),
        reply matches Response::Success { status, return_data } && status && return_data@
            == command.arguments.doc(),
{
    reveal_strlit("status");
    reveal_strlit("returnData");
    reveal_strlit("streamSessionId");
    lemma_command_arguments(command);
    let doc = echo_reply(command.arguments.doc());
    assert("status"@.len() == 6 && "returnData"@.len() == 10 && "streamSessionId"@.len() == 15);
    assert(doc.member("status"@) == Some(Doc::Bool(true)));
    assert(doc.member("returnData"@) == Some(command.arguments.doc()));
    assert(doc.member("streamSessionId"@) is None);
    assert(!is_login_reply(doc));
    assert(is_data_reply::<Json>(doc));
}

/// The reply of a server that echoes arguments that can be read back has
/// the shape of a reply with data, and not that of the reply to a login.
pub proof fn lemma_echo_reply_is_data<A: RoundTrip>(arguments: A)
    ensures
        !is_login_reply(echo_reply(arguments.doc())),
        is_data_reply::<A>(echo_reply(arguments.doc())),
        echo_reply(arguments.doc()).member("status"@) == Some(Doc::Bool(true)),
        echo_reply(arguments.doc()).member("returnData"@) == Some(arguments.doc()),
{
    reveal_strlit("status");
    reveal_strlit("returnData");
    reveal_strlit("streamSessionId");
    let doc = echo_reply(arguments.doc());
    assert("status"@.len() == 6 && "returnData"@.len() == 10 && "streamSessionId"@.len() == 15);
    assert(doc.member("status"@) == Some(Doc::Bool(true)));
    assert(doc.member("returnData"@) == Some(arguments.doc()));
    assert(doc.member("streamSessionId"@) is None);
    arguments.lemma_round_trip(&arguments);
}

/// Round trip. Where a server echoes the arguments of a command back as
/// `returnData`, and the arguments are of a type that can be read back, the
/// reply decodes as a reply with data, and the data are the arguments of the
/// command, field for field.
pub proof fn lemma_typed_echo_round_trip<A: RoundTrip>(command: BaseCommand<A>, reply: Response<A>)
    requires
        reply.is_value_of(echo_reply(command.doc().member("arguments"@)->Some_0)),
    ensures
        Response::<A>::decodes(echo_reply(command.arguments.doc())),
        reply matches Response::Success { status, return_data } && status && return_data.same(
            &command.arguments,
        ),
{
    lemma_command_arguments(command);
    lemma_echo_reply_is_data(command.arguments);
    match reply {
        Response::Success { return_data, .. } => {
            command.arguments.lemma_round_trip(&return_data);
        },
        _ => {},
    }
}

/// Round trip over frames. Where the frame of the reply holds the arguments
/// of a command as `returnData` beside a true `status`, decoding the frame
/// as a reply gives a reply with data, and the data are the arguments of the
/// command, field for field.
pub proof fn lemma_echoed_frame_round_trip<A: RoundTrip>(
    command: BaseCommand<A>,
    frame: Seq<u8>,
    outcome: Result<Response<A>, ErrorKind>,
)
    requires
        frame_holds(frame, echo_reply(command.arguments.doc())),
        is_decoded_frame(outcome, frame),
    ensures
        outcome matches Ok(Response::Success { status, return_data }) && status
            && return_data.same(&command.arguments),
{
    lemma_command_arguments(command);
    lemma_echo_reply_is_data(command.arguments);
    match outcome {
        Ok(reply) => {
            lemma_typed_echo_round_trip(command, reply);
        },
        Err(_) => {},
    }
}

/// Round trip of a streaming command. The document of a command decodes as
/// a streaming command, and what it decodes to is the command: the same
/// kind, session token and symbol.
pub proof fn lemma_streaming_command_round_trip(command: StreamingCommand, read: StreamingCommand)
    requires
        read.is_value_of(command.doc()),
    ensures
        StreamingCommand::decodes(command.doc()),
        read.same(&command),
        read.doc() == command.doc(),
{
    command.lemma_round_trip(&read);
    lemma_streaming_command_names();
    assert(read.doc() =~= command.doc());
}

} // verus!
