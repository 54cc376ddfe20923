//! Writing the summary: the plain one, and the request for the one that the
//! chat-completion service writes.

use url::Url;
use vstd::prelude::*;
use vstd::string::StringExecFns;

verus! {

/// `url::Url`, a parsed absolute URL. It is carried from the parser to the
/// request; nothing of its contents is known here.
#[verifier::external_type_specification]
#[verifier::external_body]
pub struct ExUrl(url::Url);

/// `url::ParseError`, the reason for which a text is no absolute URL.
#[verifier::external_type_specification]
#[verifier::external_body]
pub struct ExUrlParseError(url::ParseError);

/// The URL that `url::Url::parse` makes of `input`, or `None` where it
/// cannot parse an absolute URL from it.
pub uninterp spec fn parsed_url(input: Seq<char>) -> Option<Url>;

/// Whether `input` spells an absolute URL.
pub open spec fn url_parses(input: Seq<char>) -> bool {
    parsed_url(input) is Some
}

/// `url::Url::parse` returns the URL that `input` spells, or an error where
/// it cannot parse an absolute URL from it. Believed, not proved: that both
/// which of the two it is and the URL depend on the input alone. Nothing is
/// claimed about which texts parse, nor about what a URL holds.
pub assume_specification[ url::Url::parse ](input: &str) -> (r: Result<Url, url::ParseError>)
    ensures
        r matches Ok(url) ==> parsed_url(input@) == Some(url),
        r is Err ==> parsed_url(input@) is None,
;

/// The line that opens every summary.
pub const SUMMARY_HEADER: &'static str = "本次git提交记录如下：\n";

/// What ends each commit message in a summary.
pub const LINE_END: &'static str = "\n";

/// What the chat-completion service is asked to do with the commits: three
/// numbered sections (new features, fixed bugs, improvements), each with
/// lettered items.
pub const PROMPT_INSTRUCTIONS: &'static str = "请为本次生成一个git创建代码版本发布的描述：\n\
返回格式如下：\n\
1. 本次版本新增了如下功能：\n \
a. 新增了xxxx 功能 \n\
2. 本次版本修复了如下bug：\n \
a. 修复了xxxx bug \n\
3. 本次版本优化了如下功能：\n \
a. 优化了xxxx 功能 \n\
...\n\
请按照上面的格式返回版本更新的总结：\n";

/// What stands before the tag in a report.
pub const REPORT_TAG: &'static str = "previous tag = ";

/// What stands between the tag and the summary in a report.
pub const REPORT_SUMMARY: &'static str = "; summary = ";

/// Why no request could be made of the chat-completion service.
#[derive(Debug, Clone, Copy, PartialEq, Eq, Structural)]
pub enum SummaryError {
    /// The endpoint is not an absolute URL.
    InvalidUrl,
}

/// One request to the chat-completion service.
#[derive(Debug, PartialEq, Eq)]
pub struct AiRequest {
    pub endpoint: Url,
    pub api_key: String,
    pub prompt: String,
}

/// The commit messages, each followed by a line end.
pub open spec fn listing(commits: Seq<Seq<char>>) -> Seq<char>
    decreases commits.len(),
{
    if commits.len() == 0 {
        Seq::empty()
    } else {
        listing(commits.drop_last()) + commits.last() + LINE_END@
    }
}

/// The plain summary: the header, then every commit message on a line of its own.
pub open spec fn plain_summary(commits: Seq<Seq<char>>) -> Seq<char> {
    SUMMARY_HEADER@ + listing(commits)
}

/// The prompt: the plain summary, then the instructions.
pub open spec fn ai_prompt(commits: Seq<Seq<char>>) -> Seq<char> {
    plain_summary(commits) + PROMPT_INSTRUCTIONS@
}

/// The report on a release: the previous tag and the summary.
pub open spec fn report_text(tag: Seq<char>, summary: Seq<char>) -> Seq<char> {
    REPORT_TAG@ + tag + REPORT_SUMMARY@ + summary
}

/// Writes the summary that needs no service: the header and the commit
/// messages in their order, one to a line.
pub fn summarize_plain(commits: &Vec<String>) -> (summary: String)
    ensures
        summary@ == plain_summary(commits.deep_view()),
{
    let mut summary = String::from_str(SUMMARY_HEADER);
    let mut at: usize = 0;
    let ghost all = commits.deep_view();
    proof {
        assert(all.take(0) =~= Seq::<Seq<char>>::empty());
        assert(summary@ =~= plain_summary(all.take(0)));
    }
    while at < commits.len()
        invariant
            at <= commits.len(),
            all == commits.deep_view(),
            summary@ == plain_summary(all.take(at as int)),
        decreases commits.len() - at,
    {
        summary.append(commits[at].as_str());
        summary.append(LINE_END);
        proof {
            assert(all.take(at + 1).drop_last() =~= all.take(at as int));
            assert(all.take(at + 1).last() == commits[at as int]@);
            assert(summary@ =~= plain_summary(all.take(at + 1)));
        }
        at = at + 1;
    }
    proof {
        assert(all.take(at as int) =~= all);
    }
    summary
}

/// Writes the prompt that embeds all the commit messages.
pub fn write_prompt(commits: &Vec<String>) -> (prompt: String)
    ensures
        prompt@ == ai_prompt(commits.deep_view()),
{
    let mut prompt = summarize_plain(commits);
    prompt.append(PROMPT_INSTRUCTIONS);
    prompt
}

/// Makes the request out of a parsed endpoint, or gives the error where the
/// endpoint did not parse.
pub fn ai_request(parsed: Result<Url, url::ParseError>, api_key: &str, commits: &Vec<String>) -> (r:
    Result<AiRequest, SummaryError>)
    ensures
        match parsed {
            Ok(url) => {
                &&& r matches Ok(request)
                &&& request.endpoint == url
                &&& request.api_key@ == api_key@
                &&& request.prompt@ == ai_prompt(commits.deep_view())
            },
            Err(_) => r == Err::<AiRequest, SummaryError>(SummaryError::InvalidUrl),
        },
{
    match parsed {
        Ok(url) => Ok(
            AiRequest { endpoint: url, api_key: api_key.to_owned(), prompt: write_prompt(commits) },
        ),
        Err(_) => Err(SummaryError::InvalidUrl),
    }
}

/// Prepares the one request that asks the service for a summary of
/// `commits`. The endpoint must be an absolute URL, and the request goes to
/// the URL that it spells; the key and the commit messages are taken as they
/// are.
pub fn summarize_with_ai(commits: &Vec<String>, endpoint: &str, api_key: &str) -> (r: Result<
    AiRequest,
    SummaryError,
>)
    ensures
        r is Ok <==> url_parses(endpoint@),
        r matches Ok(request) ==> {
            &&& Some(request.endpoint) == parsed_url(endpoint@)
            &&& request.api_key@ == api_key@
            &&& request.prompt@ == ai_prompt(commits.deep_view())
        },
        r matches Err(error) ==> error == SummaryError::InvalidUrl,
{
    ai_request(Url::parse(endpoint), api_key, commits)
}

/// Writes the report: the tag before which nothing is reported, and the summary.
pub fn report(tag: &str, summary: &str) -> (text: String)
    ensures
        text@ == report_text(tag@, summary@),
{
    let mut text = String::from_str(REPORT_TAG);
    text.append(tag);
    text.append(REPORT_SUMMARY);
    text.append(summary);
    text
}

} // verus!
