//! What can go wrong in a transfer, in either direction.

use vstd::prelude::*;

use super::client::{connect_text, ConnectError, ConnectFault};
use crate::number::{decimal, decimal_text};
use crate::text::{
    beginnings_are_followed_by_the_rest, begins, mentions, mentions_stand_inside, occurs_at,
};

verus! {

/// Which way a file travels.
#[derive(Debug, Clone, Copy, PartialEq, Eq, Structural)]
pub enum Direction {
    Upload,
    Download,
}

/// What a transfer error says. The source is the file that is read, the target
/// the file that is written.
pub enum Fault {
    Cancelled,
    InvalidRemotePath(Seq<char>),
    InvalidLocalPath(Seq<char>),
    RemoteNotAFile(Seq<char>),
    TargetLarger { target: u64, source: u64 },
    ResumeBoundaryMismatch { offset: u64 },
    SizeMismatch { source: u64, target: u64 },
    HashMismatch,
    ChunkVerifyMismatch { offset: u64, len: u64 },
    LocalIo(Seq<char>),
    Connect(ConnectFault),
    Sftp(Seq<char>),
}

/// Why a transfer stopped.
#[derive(Debug)]
pub enum TransferError {
    Cancelled,
    InvalidRemotePath(String),
    InvalidLocalPath(String),
    RemoteNotAFile(String),
    TargetLarger { target: u64, source: u64 },
    ResumeBoundaryMismatch { offset: u64 },
    SizeMismatch { source: u64, target: u64 },
    HashMismatch,
    ChunkVerifyMismatch { offset: u64, len: u64 },
    LocalIo(String),
    Connect(ConnectError),
    Sftp(String),
}

impl View for TransferError {
    type V = Fault;

    open spec fn view(&self) -> Fault {
        match *self {
            TransferError::Cancelled => Fault::Cancelled,
            TransferError::InvalidRemotePath(m) => Fault::InvalidRemotePath(m@),
            TransferError::InvalidLocalPath(m) => Fault::InvalidLocalPath(m@),
            TransferError::RemoteNotAFile(m) => Fault::RemoteNotAFile(m@),
            TransferError::TargetLarger { target, source } => Fault::TargetLarger {
                target,
                source,
            },
            TransferError::ResumeBoundaryMismatch { offset } => Fault::ResumeBoundaryMismatch {
                offset,
            },
            TransferError::SizeMismatch { source, target } => Fault::SizeMismatch {
                source,
                target,
            },
            TransferError::HashMismatch => Fault::HashMismatch,
            TransferError::ChunkVerifyMismatch { offset, len } => Fault::ChunkVerifyMismatch {
                offset,
                len,
            },
            TransferError::LocalIo(m) => Fault::LocalIo(m@),
            TransferError::Connect(e) => Fault::Connect(e@),
            TransferError::Sftp(m) => Fault::Sftp(m@),
        }
    }
}

/// The text of a transfer error.
pub open spec fn fault_text(direction: Direction, fault: Fault) -> Seq<char> {
    let up = direction is Upload;
    match fault {
        Fault::Cancelled => if up { "用户取消了上传"@ } else { "用户取消了下载"@ },
        Fault::InvalidRemotePath(m) => "远端路径无效: "@ + m,
        Fault::InvalidLocalPath(m) => "本地路径无效: "@ + m,
        Fault::RemoteNotAFile(m) => "远端不是文件: "@ + m,
        Fault::TargetLarger { .. } => if up {
            "远端文件大于本地文件，无法续传"@
        } else {
            "本地文件大于远端文件，无法续传"@
        },
        Fault::ResumeBoundaryMismatch { offset } => "续传边界校验失败（offset="@ + decimal(
            offset as nat,
        ) + if up { "），请清除断点后重新上传"@ } else { "），请清除断点后重新下载"@ },
        Fault::SizeMismatch { source, target } => if up {
            "上传完成后远端大小不一致（本地="@ + decimal(source as nat) + "，远端="@ + decimal(
                target as nat,
            ) + "）"@
        } else {
            "下载完成后大小不一致（远端="@ + decimal(source as nat) + "，本地="@ + decimal(
                target as nat,
            ) + "）"@
        },
        Fault::HashMismatch => if up {
            "上传完成后校验不一致（SHA-256 不匹配）"@
        } else {
            "下载完成后校验不一致（SHA-256 不匹配）"@
        },
        Fault::ChunkVerifyMismatch { offset, len } => "块校验失败（offset="@ + decimal(
            offset as nat,
        ) + "，len="@ + decimal(len as nat) + if up {
            "），将重传该块"@
        } else {
            "），将重下该块"@
        },
        Fault::LocalIo(m) => if up {
            "本地文件读取失败: "@ + m
        } else {
            "本地文件写入失败: "@ + m
        },
        Fault::Connect(e) => "连接失败: "@ + connect_text(e),
        Fault::Sftp(m) => "SFTP 错误: "@ + m,
    }
}

impl TransferError {
    /// A copy of the error.
    pub fn copy(&self) -> (r: Self)
        ensures
            r@ == self@,
    {
        match self {
            TransferError::Cancelled => TransferError::Cancelled,
            TransferError::InvalidRemotePath(m) => TransferError::InvalidRemotePath(m.clone()),
            TransferError::InvalidLocalPath(m) => TransferError::InvalidLocalPath(m.clone()),
            TransferError::RemoteNotAFile(m) => TransferError::RemoteNotAFile(m.clone()),
            TransferError::TargetLarger { target, source } => TransferError::TargetLarger {
                target: *target,
                source: *source,
            },
            TransferError::ResumeBoundaryMismatch {
                offset,
            } => TransferError::ResumeBoundaryMismatch { offset: *offset },
            TransferError::SizeMismatch { source, target } => TransferError::SizeMismatch {
                source: *source,
                target: *target,
            },
            TransferError::HashMismatch => TransferError::HashMismatch,
            TransferError::ChunkVerifyMismatch {
                offset,
                len,
            } => TransferError::ChunkVerifyMismatch { offset: *offset, len: *len },
            TransferError::LocalIo(m) => TransferError::LocalIo(m.clone()),
            TransferError::Connect(e) => TransferError::Connect(e.copy()),
            TransferError::Sftp(m) => TransferError::Sftp(m.clone()),
        }
    }

    /// The text shown to the user.
    pub fn message(&self, direction: Direction) -> (r: String)
        ensures
            r@ == fault_text(direction, self@),
    {
        let up = direction == Direction::Upload;
        match self {
            TransferError::Cancelled => if up {
                "用户取消了上传".to_owned()
            } else {
                "用户取消了下载".to_owned()
            },
            TransferError::InvalidRemotePath(m) => "远端路径无效: ".to_owned().concat(m.as_str()),
            TransferError::InvalidLocalPath(m) => "本地路径无效: ".to_owned().concat(m.as_str()),
            TransferError::RemoteNotAFile(m) => "远端不是文件: ".to_owned().concat(m.as_str()),
            TransferError::TargetLarger { .. } => if up {
                "远端文件大于本地文件，无法续传".to_owned()
            } else {
                "本地文件大于远端文件，无法续传".to_owned()
            },
            TransferError::ResumeBoundaryMismatch { offset } => {
                let offset_text = decimal_text(*offset as u128);
                "续传边界校验失败（offset=".to_owned().concat(offset_text.as_str()).concat(
                    if up {
                        "），请清除断点后重新上传"
                    } else {
                        "），请清除断点后重新下载"
                    },
                )
            },
            TransferError::SizeMismatch { source, target } => {
                let source_text = decimal_text(*source as u128);
                let target_text = decimal_text(*target as u128);
                if up {
                    "上传完成后远端大小不一致（本地=".to_owned().concat(
                        source_text.as_str(),
                    ).concat("，远端=").concat(target_text.as_str()).concat("）")
                } else {
                    "下载完成后大小不一致（远端=".to_owned().concat(source_text.as_str()).concat(
                        "，本地=",
                    ).concat(target_text.as_str()).concat("）")
                }
            },
            TransferError::HashMismatch => if up {
                "上传完成后校验不一致（SHA-256 不匹配）".to_owned()
            } else {
                "下载完成后校验不一致（SHA-256 不匹配）".to_owned()
            },
            TransferError::ChunkVerifyMismatch { offset, len } => {
                let offset_text = decimal_text(*offset as u128);
                let len_text = decimal_text(*len as u128);
                "块校验失败（offset=".to_owned().concat(offset_text.as_str()).concat(
                    "，len=",
                ).concat(len_text.as_str()).concat(
                    if up {
                        "），将重传该块"
                    } else {
                        "），将重下该块"
                    },
                )
            },
            TransferError::LocalIo(m) => if up {
                "本地文件读取失败: ".to_owned().concat(m.as_str())
            } else {
                "本地文件写入失败: ".to_owned().concat(m.as_str())
            },
            TransferError::Connect(e) => {
                let text = e.message();
                "连接失败: ".to_owned().concat(text.as_str())
            },
            TransferError::Sftp(m) => "SFTP 错误: ".to_owned().concat(m.as_str()),
        }
    }
}

/// What a remote file is being read for.
#[derive(Debug, Clone, Copy, PartialEq, Eq, Structural)]
pub enum RemoteRead {
    /// A chunk of a download.
    Chunk,
    /// The digest of a chunk.
    ChunkDigest,
    /// The digest of the whole file.
    FileDigest,
}

impl RemoteRead {
    /// The error of a remote file that ends too early.
    pub fn unexpected_end(&self) -> (r: String)
        ensures
            r@ == match *self {
                RemoteRead::Chunk => "读取远端数据时意外结束"@,
                RemoteRead::ChunkDigest => "读取远端块用于校验时意外结束"@,
                RemoteRead::FileDigest => "读取远端文件用于校验时意外结束"@,
            },
    {
        match self {
            RemoteRead::Chunk => "读取远端数据时意外结束".to_owned(),
            RemoteRead::ChunkDigest => "读取远端块用于校验时意外结束".to_owned(),
            RemoteRead::FileDigest => "读取远端文件用于校验时意外结束".to_owned(),
        }
    }
}

/// A text ends in another one.
pub open spec fn ends_with(s: Seq<char>, p: Seq<char>) -> bool {
    p.len() <= s.len() && s.skip(s.len() - p.len()) == p
}

proof fn lemma_end(a: Seq<char>, p: Seq<char>)
    ensures
        ends_with(a + p, p),
{
    assert((a + p).skip((a + p).len() - p.len()) =~= p);
}

proof fn lemma_inside(a: Seq<char>, p: Seq<char>, b: Seq<char>)
    ensures
        mentions(a + p + b, p),
{
    mentions_stand_inside(a + p + b, p);
}

/// The text of an error ends in what was reported, where something was.
pub proof fn errors_end_in_what_was_reported(direction: Direction, fault: Fault)
    ensures
        match fault {
            Fault::InvalidRemotePath(m)
            | Fault::InvalidLocalPath(m)
            | Fault::RemoteNotAFile(m)
            | Fault::LocalIo(m)
            | Fault::Sftp(m) => ends_with(fault_text(direction, fault), m),
            Fault::Connect(e) => ends_with(fault_text(direction, fault), connect_text(e)),
            _ => true,
        },
{
    match fault {
        Fault::InvalidRemotePath(m) => lemma_end("远端路径无效: "@, m),
        Fault::InvalidLocalPath(m) => lemma_end("本地路径无效: "@, m),
        Fault::RemoteNotAFile(m) => lemma_end("远端不是文件: "@, m),
        Fault::LocalIo(m) => {
            lemma_end("本地文件读取失败: "@, m);
            lemma_end("本地文件写入失败: "@, m);
        },
        Fault::Sftp(m) => lemma_end("SFTP 错误: "@, m),
        Fault::Connect(e) => lemma_end("连接失败: "@, connect_text(e)),
        _ => {},
    }
}

/// The text of an error that is about a place in a file or about sizes names
/// them: the place, the place and the length, or the sizes of both files.
pub proof fn errors_name_their_numbers(direction: Direction, fault: Fault)
    ensures
        match fault {
            Fault::ResumeBoundaryMismatch { offset } => mentions(
                fault_text(direction, fault),
                decimal(offset as nat),
            ),
            Fault::ChunkVerifyMismatch { offset, len } => mentions(
                fault_text(direction, fault),
                decimal(offset as nat),
            ) && mentions(fault_text(direction, fault), decimal(len as nat)),
            Fault::SizeMismatch { source, target } => mentions(
                fault_text(direction, fault),
                decimal(source as nat),
            ) && mentions(fault_text(direction, fault), decimal(target as nat)),
            Fault::HashMismatch => mentions(fault_text(direction, fault), "SHA-256"@),
            _ => true,
        },
{
    let up = direction is Upload;
    let text = fault_text(direction, fault);
    match fault {
        Fault::ResumeBoundaryMismatch { offset } => {
            let end = if up { "），请清除断点后重新上传"@ } else { "），请清除断点后重新下载"@ };
            lemma_inside("续传边界校验失败（offset="@, decimal(offset as nat), end);
        },
        Fault::ChunkVerifyMismatch { offset, len } => {
            let end = if up { "），将重传该块"@ } else { "），将重下该块"@ };
            let a = decimal(offset as nat);
            let b = decimal(len as nat);
            lemma_inside("块校验失败（offset="@ + a + "，len="@, b, end);
            lemma_inside("块校验失败（offset="@, a, "，len="@ + b + end);
            assert(text =~= "块校验失败（offset="@ + a + ("，len="@ + b + end));
        },
        Fault::SizeMismatch { source, target } => {
            let a = decimal(source as nat);
            let b = decimal(target as nat);
            let (front, middle) = if up {
                ("上传完成后远端大小不一致（本地="@, "，远端="@)
            } else {
                ("下载完成后大小不一致（远端="@, "，本地="@)
            };
            lemma_inside(front + a + middle, b, "）"@);
            lemma_inside(front, a, middle + b + "）"@);
            assert(text =~= front + a + (middle + b + "）"@));
        },
        Fault::HashMismatch => {
            reveal_strlit("上传完成后校验不一致（SHA-256 不匹配）");
            reveal_strlit("下载完成后校验不一致（SHA-256 不匹配）");
            reveal_strlit("SHA-256");
            assert(text.subrange(11, 18) =~= "SHA-256"@);
            assert(occurs_at(text, "SHA-256"@, 11));
        },
        _ => {},
    }
}

/// An error tells its kind in its first words, and of two numbers, the right one
/// first: the size of the source before that of the target, the place of a chunk
/// before its length. The words fit the direction.
pub proof fn errors_begin_with_their_kind(direction: Direction, fault: Fault)
    ensures
        begins(
            fault_text(direction, fault),
            match fault {
                Fault::Cancelled => if direction is Upload {
                    "用户取消了上传"@
                } else {
                    "用户取消了下载"@
                },
                Fault::InvalidRemotePath(_) => "远端路径无效: "@,
                Fault::InvalidLocalPath(_) => "本地路径无效: "@,
                Fault::RemoteNotAFile(_) => "远端不是文件: "@,
                Fault::TargetLarger { .. } => if direction is Upload {
                    "远端文件大于本地文件，无法续传"@
                } else {
                    "本地文件大于远端文件，无法续传"@
                },
                Fault::ResumeBoundaryMismatch { offset } => "续传边界校验失败（offset="@
                    + decimal(offset as nat),
                Fault::SizeMismatch { source, target } => if direction is Upload {
                    "上传完成后远端大小不一致（本地="@ + decimal(source as nat)
                } else {
                    "下载完成后大小不一致（远端="@ + decimal(source as nat)
                },
                Fault::HashMismatch => if direction is Upload {
                    "上传完成后校验不一致"@
                } else {
                    "下载完成后校验不一致"@
                },
                Fault::ChunkVerifyMismatch { offset, .. } => "块校验失败（offset="@ + decimal(
                    offset as nat,
                ),
                Fault::LocalIo(_) => if direction is Upload {
                    "本地文件读取失败: "@
                } else {
                    "本地文件写入失败: "@
                },
                Fault::Connect(_) => "连接失败: "@,
                Fault::Sftp(_) => "SFTP 错误: "@,
            },
        ),
{
    let text = fault_text(direction, fault);
    match fault {
        Fault::Cancelled | Fault::TargetLarger { .. } => {
            lemma_start(text, Seq::empty());
            assert(text =~= text + Seq::<char>::empty());
        },
        Fault::InvalidRemotePath(m) => lemma_start("远端路径无效: "@, m),
        Fault::InvalidLocalPath(m) => lemma_start("本地路径无效: "@, m),
        Fault::RemoteNotAFile(m) => lemma_start("远端不是文件: "@, m),
        Fault::ResumeBoundaryMismatch { offset } => {
            let front = "续传边界校验失败（offset="@ + decimal(offset as nat);
            lemma_start(front, text.skip(front.len() as int));
            assert(text =~= front + text.skip(front.len() as int));
        },
        Fault::SizeMismatch { source, target } => {
            let front = if direction is Upload {
                "上传完成后远端大小不一致（本地="@ + decimal(source as nat)
            } else {
                "下载完成后大小不一致（远端="@ + decimal(source as nat)
            };
            lemma_start(front, text.skip(front.len() as int));
            assert(text =~= front + text.skip(front.len() as int));
        },
        Fault::ChunkVerifyMismatch { offset, len } => {
            let front = "块校验失败（offset="@ + decimal(offset as nat);
            lemma_start(front, text.skip(front.len() as int));
            assert(text =~= front + text.skip(front.len() as int));
        },
        Fault::HashMismatch => {
            reveal_strlit("上传完成后校验不一致（SHA-256 不匹配）");
            reveal_strlit("下载完成后校验不一致（SHA-256 不匹配）");
            reveal_strlit("上传完成后校验不一致");
            reveal_strlit("下载完成后校验不一致");
            let front = if direction is Upload {
                "上传完成后校验不一致"@
            } else {
                "下载完成后校验不一致"@
            };
            lemma_start(front, text.skip(front.len() as int));
            assert(text =~= front + text.skip(front.len() as int));
        },
        Fault::LocalIo(m) => {
            lemma_start("本地文件读取失败: "@, m);
            lemma_start("本地文件写入失败: "@, m);
        },
        Fault::Connect(e) => lemma_start("连接失败: "@, connect_text(e)),
        Fault::Sftp(m) => lemma_start("SFTP 错误: "@, m),
    }
}

proof fn lemma_start(a: Seq<char>, b: Seq<char>)
    ensures
        begins(a + b, a),
{
    beginnings_are_followed_by_the_rest(a + b, a);
}

} // verus!
