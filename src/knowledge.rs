//! The knowledge search stub: one synthetic hit built from the query.

use vstd::prelude::*;

use crate::params::ParamBag;
use crate::text::{concat3, has_substring, occurs_at};

verus! {

/// A search request as the front end phrases it.
pub struct RAGQuery {
    pub query: String,
    pub max_results: Option<usize>,
}

/// One search hit. The relevance score is kept in hundredths.
pub struct KnowledgeHit {
    pub title: String,
    pub content: String,
    pub score_percent: u32,
    pub source: String,
}

/// The answer to a search: the query echoed back and its hits.
pub struct KnowledgeResponse {
    pub success: bool,
    pub query: String,
    pub results: Vec<KnowledgeHit>,
}

/// Relevance of the synthetic hit, in hundredths.
pub const HIT_SCORE_PERCENT: u32 = 95;

/// Title of the synthetic hit for `q`.
pub open spec fn knowledge_title(q: Seq<char>) -> Seq<char> {
    "关于\""@ + q + "\"的知识"@
}

/// Body of the synthetic hit for `q`.
pub open spec fn knowledge_content(q: Seq<char>) -> Seq<char> {
    "这是关于"@ + q + "的详细信息..."@
}

/// `h` is the synthetic hit for `q`.
pub open spec fn is_synthetic_hit(h: KnowledgeHit, q: Seq<char>) -> bool {
    &&& h.title@ == knowledge_title(q)
    &&& h.content@ == knowledge_content(q)
    &&& h.score_percent == HIT_SCORE_PERCENT
    &&& h.source@ == "企业知识库"@
}

/// `resp` is the answer owed to a search for `q`: exactly one synthetic hit.
pub open spec fn is_knowledge_answer(resp: KnowledgeResponse, q: Seq<char>) -> bool {
    &&& resp.success
    &&& resp.query@ == q
    &&& resp.results@.len() == 1
    &&& is_synthetic_hit(resp.results@[0], q)
}

/// Searches the knowledge base. The result limit is accepted and ignored:
/// the answer is always the single synthetic hit for the query.
pub fn search_knowledge(query: String, _max_results: Option<usize>) -> (r: Result<KnowledgeResponse, String>)
    ensures
        r matches Ok(resp) && is_knowledge_answer(resp, query@),
{
    let hit = KnowledgeHit {
        title: concat3("关于\"", query.as_str(), "\"的知识"),
        content: concat3("这是关于", query.as_str(), "的详细信息..."),
        score_percent: HIT_SCORE_PERCENT,
        source: "企业知识库".to_owned(),
    };
    let mut results: Vec<KnowledgeHit> = Vec::new();
    results.push(hit);
    Ok(KnowledgeResponse { success: true, query, results })
}

/// Every answer to a search holds one hit, whose title holds the query text
/// itself and whose score is ninety-five hundredths; the result limit plays
/// no part in it.
pub proof fn lemma_answer_names_query(resp: KnowledgeResponse, q: Seq<char>)
    requires
        is_knowledge_answer(resp, q),
    ensures
        resp.results@.len() == 1,
        has_substring(resp.results@[0].title@, q),
        resp.results@[0].score_percent == 95,
{
    reveal_strlit("关于\"");
    let t = resp.results@[0].title@;
    assert(t.subrange(3, 3 + q.len() as int) =~= q);
    assert(occurs_at(t, q, 3));
}

/// Accepts a document for the knowledge base. Nothing is stored yet, and the
/// call always succeeds.
pub fn add_knowledge_document(_title: String, _content: String, _metadata: Option<ParamBag>) -> (r: Result<String, String>)
    ensures
        r matches Ok(s) && s@ == "知识文档添加成功"@,
{
    Ok("知识文档添加成功".to_owned())
}

} // verus!
