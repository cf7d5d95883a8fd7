# grok_search

A web search service that answers from a search-capable language model, backs its
answers with web sources, and falls back to the sources alone where an answer cannot
be verified.

`src/` is the verified library. It decides; it does no I/O. A search, a page fetch
and a site listing are values that say what to ask of which backend next and that
take the replies:

- `config`, `plan`: settings, and the backends that they call for
- `request`, `gather`, `answer`, `search`: one search from the caller's words to the result
- `enrich`, `pool`: page text for the sources of a search, a bounded number at a time
- `budget`, `paging`, `cache`: the length of a response, and what is kept for later pages
- `fetch`, `sitemap`, `doctor`: page fetches, site listings and diagnostics
- `session`, `urls`: random session names and web addresses, from `uuid` and `url`
- `service`: all of it behind one type; the sessions that are kept are a value beside it,
  which clones of a service share
- `laws`: what holds of the service as a whole, as proved theorems

`app/` runs the library on tokio: it asks the backends, keeps the deadline and writes
JSON. The clients for the backends are made by whoever embeds it.
