//! The text that asks for a summary of posts.
use vstd::prelude::*;
use crate::post::{FetchedPost, PostView};

verus! {

/// The instructions that open every prompt.
pub const PROMPT_HEADER: &'static str = "Summarize the following Bluesky timeline posts into the top 5 most discussed topics. Format it as a numbered list with a short description for each topic.\nUse reposts to help sort the recurring themes, and use likes as a potential lightly weighted filtering mechanism.\n\n";

/// The decimal digit of `d`, for `d` below ten.
pub open spec fn digit_char(d: nat) -> char {
    seq!['0', '1', '2', '3', '4', '5', '6', '7', '8', '9'][d as int]
}

/// The decimal notation of `n`, without leading zeros.
pub open spec fn decimal(n: nat) -> Seq<char>
    decreases n,
{
    if n < 10 {
        seq![digit_char(n)]
    } else {
        decimal(n / 10).push(digit_char(n % 10))
    }
}

/// The decimal digit of `d` as a one-character string.
fn digit_text(d: usize) -> (r: &'static str)
    requires
        d < 10,
    ensures
        r@ == seq![digit_char(d as nat)],
{
    match d {
        0 => {
            proof {
                reveal_strlit("0");
            }
            "0"
        },
        1 => {
            proof {
                reveal_strlit("1");
            }
            "1"
        },
        2 => {
            proof {
                reveal_strlit("2");
            }
            "2"
        },
        3 => {
            proof {
                reveal_strlit("3");
            }
            "3"
        },
        4 => {
            proof {
                reveal_strlit("4");
            }
            "4"
        },
        5 => {
            proof {
                reveal_strlit("5");
            }
            "5"
        },
        6 => {
            proof {
                reveal_strlit("6");
            }
            "6"
        },
        7 => {
            proof {
                reveal_strlit("7");
            }
            "7"
        },
        8 => {
            proof {
                reveal_strlit("8");
            }
            "8"
        },
        _ => {
            proof {
                reveal_strlit("9");
            }
            "9"
        },
    }
}

/// The decimal notation of `n`.
fn decimal_text(n: usize) -> (r: String)
    ensures
        r@ == decimal(n as nat),
    decreases n,
{
    if n < 10 {
        String::from_str(digit_text(n))
    } else {
        let mut s = decimal_text(n / 10);
        s.append(digit_text(n % 10));
        s
    }
}

/// The block that describes the post numbered `number`.
pub open spec fn post_block(number: nat, p: PostView) -> Seq<char> {
    "Post "@ + decimal(number) + ":\nAuthor: "@ + p.author + "\nText: "@ + p.text + "\nLikes: "@
        + decimal(p.like_count) + "\nReposts: "@ + decimal(p.repost_count) + "\n\n"@
}

/// The prompt for the posts: the header, then one block per post, numbered
/// from one.
pub open spec fn prompt_of(posts: Seq<PostView>) -> Seq<char>
    decreases posts.len(),
{
    if posts.len() == 0 {
        PROMPT_HEADER@
    } else {
        prompt_of(posts.drop_last()) + post_block(posts.len(), posts.last())
    }
}

/// The prompt that asks for the top topics of `posts`.
pub fn format_prompt(posts: &[FetchedPost]) -> (r: String)
    ensures
        r@ == prompt_of(posts@.map_values(|p: FetchedPost| p@)),
{
    let ghost pv = posts@.map_values(|p: FetchedPost| p@);
    let mut prompt = String::from_str(PROMPT_HEADER);
    let mut i: usize = 0;
    while i < posts.len()
        invariant
            0 <= i <= posts@.len(),
            pv == posts@.map_values(|p: FetchedPost| p@),
            prompt@ == prompt_of(pv.take(i as int)),
        decreases posts@.len() - i,
    {
        assert(pv.take(i + 1).drop_last() =~= pv.take(i as int));
        assert(pv.take(i + 1).last() == posts@[i as int]@);
        let p = &posts[i];
        prompt.append("Post ");
        prompt.append(decimal_text(i + 1).as_str());
        prompt.append(":\nAuthor: ");
        prompt.append(p.author.as_str());
        prompt.append("\nText: ");
        prompt.append(p.text.as_str());
        prompt.append("\nLikes: ");
        prompt.append(decimal_text(p.like_count).as_str());
        prompt.append("\nReposts: ");
        prompt.append(decimal_text(p.repost_count).as_str());
        prompt.append("\n\n");
        i += 1;
    }
    assert(pv.take(i as int) =~= pv);
    prompt
}

} // verus!
