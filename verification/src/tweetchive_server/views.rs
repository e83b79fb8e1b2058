//! The CouchDB views the server queries: their names and map functions.

use crate::tweetchive_server::api::CouchView;
use vstd::prelude::*;
use vstd::string::*;

verus! {

/// The name of the view that leads from every id a tweet was seen under to
/// the tweet's document.
pub const TWEET_BY_ALSO_IDS: &'static str = "tweet_by_also_ids";

/// The name of the view of the latest version of each tweet, keyed by its author.
pub const TWEET_LATEST: &'static str = "latest_tweet_of_user";

/// The map function of the view of the latest version of each tweet, keyed by its author.
pub const LATEST_TWEETS_OF_USER_MAP: &'static str = "function (doc) {var max = 0;\n            var value = null;\n            for (var key in doc.data) {\n                if key > max {\n                    max = key;\n                    value = doc.data[max];\n                }\n            }\n            emit(doc.author, {\n                \"_id\": doc._id,\n                \"also_ids\": doc.also_ids\n                \"conversation_id\": doc.conversation_id,\n                \"reply_to\": doc.reply_to,\n                \"data\": value\n                \"snapshot\": max\n            })\n        } ";

/// The view of the latest version of each tweet, keyed by its author, without a reduce function.
pub fn latest_tweets_of_user() -> (v: CouchView)
    ensures
        v.map@ == LATEST_TWEETS_OF_USER_MAP@,
        v.reduce is None,
{
    CouchView { map: String::from_str(LATEST_TWEETS_OF_USER_MAP), reduce: None }
}

/// The name of the view of the latest version of each tweet, keyed by its conversation.
pub const CONVERSATION_LATEST: &'static str = "latest_tweet_of_conversation";

/// The map function of the view of the latest version of each tweet, keyed by its conversation.
pub const LATEST_TWEETS_OF_CONVERSATION_MAP: &'static str = "function (doc) {var max = 0;\n            var value = null;\n            for (var key in doc.data) {\n                if key > max {\n                    max = key;\n                    value = doc.data[max];\n                }\n            }\n            emit(doc.conversation_id, {\n                \"_id\": doc._id,\n                \"also_ids\": doc.also_ids\n                \"author\": doc.author,\n                \"reply_to\": doc.reply_to,\n                \"data\": value\n                \"snapshot\": max\n            })\n        } ";

/// The view of the latest version of each tweet, keyed by its conversation, without a reduce function.
pub fn latest_tweets_of_conversation() -> (v: CouchView)
    ensures
        v.map@ == LATEST_TWEETS_OF_CONVERSATION_MAP@,
        v.reduce is None,
{
    CouchView { map: String::from_str(LATEST_TWEETS_OF_CONVERSATION_MAP), reduce: None }
}

/// The name of the view of the latest version of each tweet, keyed by the tweet it replies to.
pub const REPLY_LATEST: &'static str = "latest_replies_of_tweet";

/// The map function of the view of the latest version of each tweet, keyed by the tweet it replies to.
pub const LATEST_REPLIES_OF_TWEET_MAP: &'static str = "function (doc) {var max = 0;\n            var value = null;\n            for (var key in doc.data) {\n                if key > max {\n                    max = key;\n                    value = doc.data[max];\n                }\n            }\n            emit(doc.reply_to, {\n                \"_id\": doc._id,\n                \"also_ids\": doc.also_ids\n                \"author\": doc.author,\n                \"conversation_id\": doc.conversation_id,\n                \"data\": value\n                \"snapshot\": max\n            })\n        } ";

/// The view of the latest version of each tweet, keyed by the tweet it replies to, without a reduce function.
pub fn latest_replies_of_tweet() -> (v: CouchView)
    ensures
        v.map@ == LATEST_REPLIES_OF_TWEET_MAP@,
        v.reduce is None,
{
    CouchView { map: String::from_str(LATEST_REPLIES_OF_TWEET_MAP), reduce: None }
}

/// The name of the view of the latest version of each account, keyed by its handle.
pub const USER_BY_HANDLE: &'static str = "user_by_handle";

/// The map function of the view of the latest version of each account, keyed by its handle.
pub const USER_BY_HANDLE_MAP: &'static str = "function (doc) {var max = 0;\n            var value = null;\n            for (var key in doc.data) {\n                if key > max {\n                    max = key;\n                    value = doc.data[max];\n                }\n            }\n            emit(value.name.handler, value)\n        }";

/// The view of the latest version of each account, keyed by its handle, without a reduce function.
pub fn user_by_handle() -> (v: CouchView)
    ensures
        v.map@ == USER_BY_HANDLE_MAP@,
        v.reduce is None,
{
    CouchView { map: String::from_str(USER_BY_HANDLE_MAP), reduce: None }
}

/// The name of the view of the basic facts of the latest version of each account, keyed by its id.
pub const BASIC_INFO_ID: &'static str = "user_basic_info_id";

/// The map function of the view of the basic facts of the latest version of each account, keyed by its id.
pub const BASIC_INFO_BY_ID_MAP: &'static str = "function (doc) {\n            var max = 0;\n            var value = null;\n            for (var key in doc.data) {\n                if key > max {\n                    max = key;\n                    value = doc.data[max];\n                }\n            }\n            emit(value.id, {\n                \"display\": value.name.display,\n                \"handler\": value.name.handler,\n                \"profile_picture\": doc.media[max].profile_picture,\n                \"banner\": doc.media[max].banner,\n                \"nft\": doc.media[max].is_nft,\n            })\n        }\n        ";

/// The view of the basic facts of the latest version of each account, keyed by its id, without a reduce function.
pub fn basic_info_by_id() -> (v: CouchView)
    ensures
        v.map@ == BASIC_INFO_BY_ID_MAP@,
        v.reduce is None,
{
    CouchView { map: String::from_str(BASIC_INFO_BY_ID_MAP), reduce: None }
}

/// The name of the view of the basic facts of the latest version of each account, keyed by its handle.
pub const BASIC_INFO_HANDLE: &'static str = "user_basic_info_handle";

/// The map function of the view of the basic facts of the latest version of each account, keyed by its handle.
pub const BASIC_INFO_BY_HANDLE_MAP: &'static str = "function (doc) {\n            var max = 0;\n            var value = null;\n            for (var key in doc.data) {\n                if key > max {\n                    max = key;\n                    value = doc.data[max];\n                }\n            }\n            emit(value.name.handler, {\n                \"id\": value.id,\n                \"display\": value.name.display,\n                \"profile_picture\": doc.media[max].profile_picture,\n                \"banner\": doc.media[max].banner,\n                \"nft\": doc.media[max].is_nft,\n            })\n        }\n        ";

/// The view of the basic facts of the latest version of each account, keyed by its handle, without a reduce function.
pub fn basic_info_by_handle() -> (v: CouchView)
    ensures
        v.map@ == BASIC_INFO_BY_HANDLE_MAP@,
        v.reduce is None,
{
    CouchView { map: String::from_str(BASIC_INFO_BY_HANDLE_MAP), reduce: None }
}

} // verus!
