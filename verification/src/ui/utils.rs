use vstd::prelude::*;
use super::Page;

verus! {

/// What a handler answers: the response it made, or a text that says what failed.
#[derive(Debug)]
pub enum Reply<T> {
    Response(T),
    Text(String),
}

/// The rendered text, or the given error text where rendering failed.
pub fn render_or_else<E>(rendered: Result<String, E>, err: &str) -> (s: String)
    ensures
        match rendered {
            Ok(t) => s == t,
            Err(_) => s@ == err@,
        },
{
    match rendered {
        Ok(t) => t,
        Err(_) => err.to_owned(),
    }
}

/// The response, or the given error text where there is none.
pub fn into_response_or<T, E>(result: Result<T, E>, err: &str) -> (r: Reply<T>)
    ensures
        match result {
            Ok(t) => r == Reply::<T>::Response(t),
            Err(_) => r matches Reply::Text(s) && s@ == err@,
        },
{
    match result {
        Ok(t) => Reply::Response(t),
        Err(_) => Reply::Text(err.to_owned()),
    }
}

/// The page with the given title that shows the content, or the given error
/// text where there is no content.
pub fn into_page_or<E>(title: &str, content: Result<String, E>, err: &str) -> (p: Page)
    ensures
        p.title@ == title@,
        match content {
            Ok(c) => p.content == c,
            Err(_) => p.content@ == err@,
        },
{
    let content = match content {
        Ok(c) => c,
        Err(_) => err.to_owned(),
    };
    Page { title: title.to_owned(), content }
}

} // verus!
