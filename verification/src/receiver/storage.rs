//! Where a received text is saved: `<directory>/<request id>.txt`.

use vstd::prelude::*;
use vstd::string::*;
use crate::receiver::config::StorageConfig;
use crate::request_id::{hyphenated_uuid, uuid_text};

verus! {

/// `file` joined onto `dir` as `PathBuf::join` does it on Unix for a relative
/// file name: a `/` goes between them unless `dir` is empty or already ends
/// with one.
pub open spec fn join_path(dir: Seq<char>, file: Seq<char>) -> Seq<char> {
    if dir.len() == 0 {
        file
    } else if dir.last() == '/' {
        dir + file
    } else {
        dir + seq!['/'] + file
    }
}

/// The name of the file that keeps the text of request `id`.
pub open spec fn text_file_name(id: u128) -> Seq<char> {
    hyphenated_uuid(id) + seq!['.', 't', 'x', 't']
}

/// The path the text of request `id` is saved to, if saving is on.
pub open spec fn text_path_spec(config: StorageConfig, id: u128) -> Option<Seq<char>> {
    if config.save_text {
        Some(join_path(config.directory@, text_file_name(id)))
    } else {
        None
    }
}

/// The path to save the text of request `request_id` to; `None` when the
/// configuration says not to save text.
pub fn text_path(config: &StorageConfig, request_id: u128) -> (r: Option<String>)
    ensures
        r.deep_view() == text_path_spec(*config, request_id),
        !config.save_text ==> r is None,
        config.save_text && config.directory@.len() > 0 && config.directory@.last() != '/' ==> r.deep_view()
            == Some(config.directory@ + seq!['/'] + hyphenated_uuid(request_id) + seq!['.', 't', 'x', 't']),
        config.save_text && config.directory@.len() > 0 && config.directory@.last() == '/' ==> r.deep_view()
            == Some(config.directory@ + hyphenated_uuid(request_id) + seq!['.', 't', 'x', 't']),
{
    if !config.save_text {
        return None;
    }
    let dir = config.directory.as_str();
    let mut path = String::new();
    path.append(dir);
    let n = dir.unicode_len();
    if n > 0 && dir.get_char(n - 1) != '/' {
        path.append("/");
        proof {
            reveal_strlit("/");
        }
    }
    let id = uuid_text(request_id);
    path.append(id.as_str());
    path.append(".txt");
    proof {
        reveal_strlit(".txt");
    }
    assert(path@ =~= join_path(config.directory@, text_file_name(request_id)));
    Some(path)
}

/// A saved text lands inside its directory: for a non-empty directory `d`
/// the path is `d`, one `/` (the one `d` ends with, or an added one) and the
/// file name, so the parent of the path is exactly `d` without a trailing
/// slash, whether `d` is absolute or relative.
pub proof fn lemma_path_inside_directory(dir: Seq<char>, file: Seq<char>)
    requires
        dir.len() > 0,
    ensures
        dir.last() != '/' ==> join_path(dir, file) == dir + seq!['/'] + file,
        dir.last() == '/' ==> join_path(dir, file) == dir + file,
        join_path(dir, file).subrange(0, dir.len() as int) == dir,
        join_path(dir, file).len() >= dir.len() + file.len(),
        join_path(dir, file).subrange(
            join_path(dir, file).len() - file.len(),
            join_path(dir, file).len() as int,
        ) == file,
        join_path(dir, file)[join_path(dir, file).len() - file.len() - 1] == '/',
{
    let p = join_path(dir, file);
    assert(p.subrange(0, dir.len() as int) =~= dir);
    assert(p.subrange(p.len() - file.len(), p.len() as int) =~= file);
}

/// With saving off no path is chosen; with it on and a directory not ending
/// in `/`, the path is the directory, `/`, the hyphenated request id and
/// `.txt`.
pub proof fn lemma_text_path_layout(config: StorageConfig, id: u128)
    ensures
        !config.save_text ==> text_path_spec(config, id) is None,
        config.save_text && config.directory@.len() > 0 && config.directory@.last() != '/'
            ==> text_path_spec(config, id) == Some(
            config.directory@ + seq!['/'] + hyphenated_uuid(id) + seq!['.', 't', 'x', 't'],
        ),
{
    if config.save_text && config.directory@.len() > 0 {
        lemma_path_inside_directory(config.directory@, text_file_name(id));
        assert(config.directory@ + seq!['/'] + (hyphenated_uuid(id) + seq!['.', 't', 'x', 't'])
            =~= config.directory@ + seq!['/'] + hyphenated_uuid(id) + seq!['.', 't', 'x', 't']);
    }
}

} // verus!
